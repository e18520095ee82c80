use bian_rs::enums::{ContractType, Interval, MarginType, OrderSide, OrderType, PositionDirect, TimeInForce};
use bian_rs::params::{PBatchOrder, POrder, POrderSpec, PPositionMargin};
use std::collections::BTreeMap;
use bian_rs::params::{
    PAggTrade, PBatchCancelOrder, PContinuousKline, PCountdownCancel, PForceOrder, PFundingRate, PFutures,
    PHistOrder, PIndexPriceKline, PKline, PLeverage, PLvtKlines, PMarginType, POptionSymbolQuery,
    PPositionMarginHist, PPositionSideDual, PQueryOrder, PSymbol, PSymbolWithTs, PTimestamp, PTrade, PUserTrade,
};
use bian_rs::query::{to_query, QueryParams};

fn ts() -> PTimestamp {
    PTimestamp { recv_window: None, timestamp: 1600000000000 }
}

fn sym() -> String {
    "BTCUSDT".to_string()
}

#[test]
fn market_data_parameters() {
    assert_eq!(to_query(&PTrade { symbol: sym(), limit: 10 }), "symbol=BTCUSDT&limit=10");
    assert_eq!(to_query(&PSymbol { symbol: sym() }), "symbol=BTCUSDT");
    assert_eq!(
        to_query(&PAggTrade { symbol: sym(), limit: Some(1), from_id: None, start_time: Some(2), end_time: Some(3) }),
        "symbol=BTCUSDT&limit=1&startTime=2&endTime=3"
    );
    assert_eq!(
        to_query(&PKline { symbol: sym(), interval: Interval::Min15, start_time: None, end_time: None, limit: Some(500) }),
        "symbol=BTCUSDT&interval=15m&limit=500"
    );
    assert_eq!(
        to_query(&PContinuousKline {
            pair: sym(),
            contract_type: ContractType::Perpetual.to_string(),
            interval: Interval::Month1,
            start_time: None,
            end_time: None,
            limit: None
        }),
        "pair=BTCUSDT&contractType=PERPETUAL&interval=1M"
    );
    assert_eq!(
        to_query(&PIndexPriceKline { pair: sym(), interval: Interval::Week1, start_time: Some(-1), end_time: None, limit: None }),
        "pair=BTCUSDT&interval=1w&startTime=-1"
    );
    assert_eq!(to_query(&PFundingRate { symbol: None, start_time: None, end_time: None, limit: None }), "");
    assert_eq!(
        to_query(&PForceOrder { symbol: Some(sym()), start_time: None, end_time: None, limit: Some(3) }),
        "symbol=BTCUSDT&limit=3"
    );
    assert_eq!(
        to_query(&PFutures { symbol: sym(), period: Interval::Min5, limit: None, start_time: None, end_time: Some(8) }),
        "symbol=BTCUSDT&period=5m&endTime=8"
    );
    assert_eq!(
        to_query(&PLvtKlines { symbol: sym(), interval: Interval::Day1, limit: Some(2), start_time: None, end_time: None }),
        "symbol=BTCUSDT&interval=1d&limit=2"
    );
}

#[test]
fn timestamp_fields_are_flattened_in_place() {
    assert_eq!(to_query(&ts()), "timestamp=1600000000000");
    assert_eq!(
        to_query(&PTimestamp { recv_window: Some(5000), timestamp: 1600000000000 }),
        "recvWindow=5000&timestamp=1600000000000"
    );
    assert_eq!(
        to_query(&PPositionSideDual { dual_side_position: false, ts: ts() }),
        "dualSidePosition=false&timestamp=1600000000000"
    );
    assert_eq!(to_query(&PSymbolWithTs { symbol: sym(), ts: ts() }), "symbol=BTCUSDT&timestamp=1600000000000");
    assert_eq!(to_query(&POptionSymbolQuery { symbol: None, ts: ts() }), "timestamp=1600000000000");
    assert_eq!(
        to_query(&PQueryOrder { symbol: sym(), order_id: Some(12), orig_client_order_id: Some("my id".to_string()), ts: ts() }),
        "symbol=BTCUSDT&orderId=12&origClientOrderId=my+id&timestamp=1600000000000"
    );
    assert_eq!(
        to_query(&PCountdownCancel { symbol: sym(), countdown_time: 120000, ts: ts() }),
        "symbol=BTCUSDT&countdownTime=120000&timestamp=1600000000000"
    );
    assert_eq!(
        to_query(&PHistOrder { symbol: sym(), order_id: None, start_time: None, end_time: None, limit: Some(1), ts: ts() }),
        "symbol=BTCUSDT&limit=1&timestamp=1600000000000"
    );
    assert_eq!(
        to_query(&PLeverage { symbol: sym(), leverage: 20, ts: ts() }),
        "symbol=BTCUSDT&leverage=20&timestamp=1600000000000"
    );
    assert_eq!(
        to_query(&PUserTrade { symbol: sym(), start_time: None, end_time: None, from_id: Some(4), limit: None, ts: ts() }),
        "symbol=BTCUSDT&fromId=4&timestamp=1600000000000"
    );
}

#[test]
fn enumerated_values_travel_under_their_wire_names() {
    assert_eq!(
        to_query(&PMarginType { symbol: sym(), margin_type: MarginType::Isolated, ts: ts() }),
        "symbol=BTCUSDT&marginType=ISOLATED&timestamp=1600000000000"
    );
    assert_eq!(
        to_query(&PPositionMarginHist {
            symbol: sym(),
            position_side: Some(PositionDirect::Long),
            start_time: None,
            end_time: None,
            limit: None,
            margin_type: 1,
            ts: ts()
        }),
        "symbol=BTCUSDT&positionSide=LONG&type=1&timestamp=1600000000000"
    );
}

#[test]
fn lists_are_written_element_by_element() {
    let params = PBatchCancelOrder {
        symbol: sym(),
        order_id_list: vec![1, 2],
        orig_client_order_id_list: vec!["x".to_string()],
        ts: ts(),
    };
    assert_eq!(
        to_query(&params),
        "symbol=BTCUSDT&orderIdList[0]=1&orderIdList[1]=2&origClientOrderIdList[0]=x&timestamp=1600000000000"
    );
    assert_eq!(params.fields().len(), 6);
}

#[test]
fn now_has_no_receive_window() {
    let before = std::time::SystemTime::now().duration_since(std::time::UNIX_EPOCH).unwrap().as_millis() as i64;
    let now = PTimestamp::now();
    assert!(now.recv_window.is_none());
    assert!(now.timestamp >= before - 1000);
    assert!(now.timestamp <= before + 60_000);
}

#[test]
fn wire_names() {
    assert_eq!(Interval::Min1.to_string(), "1m");
    assert_eq!(Interval::Hour12.wire_name(), "12h");
    assert_eq!(Interval::Month1.wire_name(), "1M");
    assert_eq!(ContractType::CurrentMonthDelivering.to_string(), "CURRENT_MONTH_DELIVERING");
    assert_eq!(ContractType::NextMonth.wire_name(), "NEXT_MONTH");
    assert_eq!(MarginType::Crossed.wire_name(), "CROSSED");
    assert_eq!(PositionDirect::Both.wire_name(), "BOTH");
    assert_eq!(bian_rs::enums::TimeInForce::GTX.wire_name(), "GTX");
    assert_eq!(bian_rs::enums::SpotOrderType::StopLossLimit.wire_name(), "STOP_LOSS_LIMIT");
    assert_eq!(bian_rs::enums::FuturesOrderType::TrailingStopMarket.wire_name(), "TRAILING_STOP_MARKET");
    assert_eq!(bian_rs::enums::OrderStatus::PartiallyFilled.wire_name(), "PARTIALLY_FILLED");
    assert_eq!(bian_rs::enums::ContractStatus::PreDelivering.wire_name(), "PRE_DELIVERING");
    assert_eq!(bian_rs::enums::WorkingType::MarkPrice.wire_name(), "MARK_PRICE");
    assert_eq!(bian_rs::enums::NewOrderType::Ack.wire_name(), "ACK");
    assert_eq!(bian_rs::enums::OrderSide::Sell.wire_name(), "SELL");
}

#[test]
fn at_keeps_the_given_time() {
    let ts = PTimestamp::at(1499827319559);
    assert_eq!(ts.timestamp, 1499827319559);
    assert!(ts.recv_window.is_none());
    assert_eq!(to_query(&ts), "timestamp=1499827319559");
    assert_eq!(PTimestamp::at(-1).timestamp, -1);
}

fn limit_order(symbol: &str, price: &str) -> POrderSpec {
    POrderSpec {
        symbol: symbol.to_string(),
        side: OrderSide::Buy,
        position_side: None,
        order_type: OrderType::Limit,
        reduce_only: Some(false),
        quantity: Some("1".to_string()),
        price: Some(price.to_string()),
        new_client_order_id: None,
        stop_price: None,
        close_position: None,
        activation_price: None,
        callback_rate: None,
        time_in_force: Some(TimeInForce::GTC),
        working_type: None,
        price_protect: None,
        new_order_resp_type: None,
    }
}

#[test]
fn order_fields_are_written_in_their_order() {
    assert_eq!(
        to_query(&limit_order("BTCUSDT", "0.1")),
        "symbol=BTCUSDT&side=BUY&type=LIMIT&reduceOnly=false&quantity=1&price=0.1&timeInForce=GTC"
    );
    assert_eq!(
        to_query(&POrder { spec: limit_order("BTCUSDT", "0.1"), ts: ts() }),
        "symbol=BTCUSDT&side=BUY&type=LIMIT&reduceOnly=false&quantity=1&price=0.1&timeInForce=GTC&timestamp=1600000000000"
    );
    let full = POrderSpec {
        position_side: Some(PositionDirect::Short),
        new_client_order_id: Some("my order".to_string()),
        stop_price: Some("9.5".to_string()),
        close_position: Some("0".to_string()),
        activation_price: Some("10".to_string()),
        callback_rate: Some("0.3".to_string()),
        working_type: Some("MARK_PRICE".to_string()),
        price_protect: Some("TRUE".to_string()),
        new_order_resp_type: Some("ACK".to_string()),
        ..limit_order("ETHUSDT", "2")
    };
    assert_eq!(
        to_query(&full),
        "symbol=ETHUSDT&side=BUY&positionSide=SHORT&type=LIMIT&reduceOnly=false&quantity=1&price=2&newClientOrderId=my+order&stopPrice=9.5&closePosition=0&activationPrice=10&callbackRate=0.3&timeInForce=GTC&workingType=MARK_PRICE&priceProtect=TRUE&newOrderRespType=ACK"
    );
}

#[test]
fn position_margin_amount_is_written_as_given() {
    let params = PPositionMargin {
        symbol: sym(),
        position_side: Some(PositionDirect::Long),
        amount: "100.50".to_string(),
        margin_type: 1,
        ts: ts(),
    };
    assert_eq!(to_query(&params), "symbol=BTCUSDT&positionSide=LONG&amount=100.50&type=1&timestamp=1600000000000");
}

#[test]
fn batch_orders_are_written_as_records_of_a_list() {
    let params = PBatchOrder {
        batch_orders: vec![limit_order("BTCUSDT", "0.1"), limit_order("ETHUSDT", "2")],
        ts: ts(),
    };
    let order = |i: usize, symbol: &str, price: &str| {
        format!(
            "batchOrders[{i}][symbol]={symbol}&batchOrders[{i}][side]=BUY&batchOrders[{i}][type]=LIMIT&batchOrders[{i}][reduceOnly]=false&batchOrders[{i}][quantity]=1&batchOrders[{i}][price]={price}&batchOrders[{i}][timeInForce]=GTC"
        )
    };
    assert_eq!(
        to_query(&params),
        format!("{}&{}&timestamp=1600000000000", order(0, "BTCUSDT", "0.1"), order(1, "ETHUSDT", "2"))
    );
    let none = PBatchOrder { batch_orders: Vec::new(), ts: ts() };
    assert_eq!(to_query(&none), "timestamp=1600000000000");
}

#[test]
fn records_of_a_list_agree_with_the_query_string_crate() {
    let mut first = BTreeMap::new();
    first.insert("price".to_string(), "0.1".to_string());
    first.insert("the symbol".to_string(), "BTC USDT".to_string());
    let mut second = BTreeMap::new();
    second.insert("price".to_string(), "2&3".to_string());
    let mut whole = BTreeMap::new();
    whole.insert("batchOrders".to_string(), vec![first, second]);
    let expected = serde_qs::to_string(&whole).unwrap();

    let mut fields = Vec::new();
    let record = vec![
        bian_rs::query::QueryField::text("price", "0.1"),
        bian_rs::query::QueryField::text("the symbol", "BTC USDT"),
    ];
    bian_rs::query::push_record(&mut fields, "batchOrders", 0, &record);
    let record = vec![bian_rs::query::QueryField::text("price", "2&3")];
    bian_rs::query::push_record(&mut fields, "batchOrders", 1, &record);
    assert_eq!(bian_rs::query::canonical_query(&fields), expected);
    assert_eq!(
        expected,
        "batchOrders[0][price]=0.1&batchOrders[0][the+symbol]=BTC+USDT&batchOrders[1][price]=2%263"
    );
}

#[test]
fn nesting_keeps_what_lies_deeper() {
    let mut inner = Vec::new();
    bian_rs::query::push_uint_items(&mut inner, "ids", &vec![7, 8]);
    let nested = bian_rs::query::nest("orders", 3, &inner[1]);
    assert_eq!(bian_rs::query::canonical_query(&vec![nested]), "orders[3][ids][1]=8");
    let absent = bian_rs::query::nest("orders", 0, &bian_rs::query::QueryField::opt_text("gone", None));
    assert_eq!(bian_rs::query::canonical_query(&vec![absent]), "");
    assert_eq!(bian_rs::query::canonical_query(&vec![bian_rs::query::QueryField::opt_flag("f", Some(true))]), "f=true");
    assert_eq!(bian_rs::query::canonical_query(&vec![bian_rs::query::QueryField::opt_flag("f", None)]), "");
}
