use bybit::events::{
    LinearTickerData, LinearTickerDataDelta, LinearTickerDataSnapshot, Timed,
};
use bybit::outbox::Outbox;
use bybit::snapshots::LinearSnapshots;
use bybit::table::{Fields, Table};
use serde_json::Value;

fn fields(pairs: &[(&str, &str)]) -> Fields {
    let mut fields = Fields::new();
    for (name, value) in pairs {
        fields.insert(name.to_string(), Value::from(*value));
    }
    fields
}

fn snapshot(time: u64, symbol: &str, pairs: &[(&str, &str)]) -> Timed<LinearTickerData> {
    let data = LinearTickerDataSnapshot {
        symbol: symbol.to_string(),
        fields: fields(pairs),
    };
    Timed {
        time,
        data: LinearTickerData::Snapshot(data),
    }
}

fn delta(time: u64, symbol: &str, pairs: &[(&str, &str)]) -> Timed<LinearTickerData> {
    let data = LinearTickerDataDelta {
        symbol: symbol.to_string(),
        fields: fields(pairs),
    };
    Timed {
        time,
        data: LinearTickerData::Delta(data),
    }
}

fn field(timed: &Timed<LinearTickerDataSnapshot>, name: &str) -> Option<String> {
    let value = timed.data.fields.get(&name.to_string())?;
    Some(value.as_str().unwrap().to_string())
}

fn has(timed: &Timed<LinearTickerDataSnapshot>, name: &str, value: &str) -> bool {
    field(timed, name) == Some(value.to_string())
}

#[test]
fn table_keeps_one_value_for_a_name() {
    let mut table: Table<u64> = Table::new();
    assert_eq!(table.get(&"a".to_string()), None);
    table.insert("a".to_string(), 1);
    table.insert("b".to_string(), 2);
    table.insert("a".to_string(), 3);
    assert_eq!(table.get(&"a".to_string()), Some(&3));
    assert_eq!(table.get(&"b".to_string()), Some(&2));
    assert_eq!(table.get(&"c".to_string()), None);
    let mut changes: Table<u64> = Table::new();
    changes.insert("c".to_string(), 4);
    changes.insert("b".to_string(), 5);
    table.overlay(changes);
    assert_eq!(table.get(&"a".to_string()), Some(&3));
    assert_eq!(table.get(&"b".to_string()), Some(&5));
    assert_eq!(table.get(&"c".to_string()), Some(&4));
}

#[test]
fn copies_hold_the_same() {
    let original = fields(&[("lastPrice", "1"), ("markPrice", "2")]);
    let copy = original.copy();
    for name in ["lastPrice", "markPrice", "other"] {
        assert_eq!(
            copy.get(&name.to_string()),
            original.get(&name.to_string())
        );
    }
}

#[test]
fn change_of_an_unknown_ticker_is_passed_over() {
    let mut snapshots = LinearSnapshots::new();
    assert!(snapshots
        .apply(delta(1, "BTCUSDT", &[("lastPrice", "1")]))
        .is_none());
    assert!(snapshots
        .apply(snapshot(2, "ETHUSDT", &[("lastPrice", "2")]))
        .is_some());
    assert!(snapshots
        .apply(delta(3, "BTCUSDT", &[("lastPrice", "3")]))
        .is_none());
}

#[test]
fn changes_are_put_on_top() {
    let mut snapshots = LinearSnapshots::new();
    let first = snapshots
        .apply(snapshot(1, "BTCUSDT", &[("lastPrice", "10"), ("markPrice", "11")]))
        .unwrap();
    assert_eq!(first.time, 1);
    assert_eq!(first.data.symbol, "BTCUSDT");
    assert!(has(&first, "lastPrice", "10"));
    let second = snapshots
        .apply(delta(2, "BTCUSDT", &[("lastPrice", "12")]))
        .unwrap();
    assert_eq!(second.time, 2);
    assert_eq!(second.data.symbol, "BTCUSDT");
    assert!(has(&second, "lastPrice", "12"));
    assert!(has(&second, "markPrice", "11"));
    let third = snapshots
        .apply(delta(3, "BTCUSDT", &[("markPrice", "13"), ("volume", "14")]))
        .unwrap();
    assert!(has(&third, "lastPrice", "12"));
    assert!(has(&third, "markPrice", "13"));
    assert!(has(&third, "volume", "14"));
    assert!(has(&first, "lastPrice", "10"));
}

#[test]
fn whole_state_replaces_the_old_one() {
    let mut snapshots = LinearSnapshots::new();
    snapshots.apply(snapshot(1, "BTCUSDT", &[("lastPrice", "10"), ("volume", "1")]));
    let fresh = snapshots
        .apply(snapshot(2, "BTCUSDT", &[("lastPrice", "20")]))
        .unwrap();
    assert!(has(&fresh, "lastPrice", "20"));
    assert_eq!(field(&fresh, "volume"), None);
    let after = snapshots.apply(delta(3, "BTCUSDT", &[])).unwrap();
    assert_eq!(after.time, 3);
    assert!(has(&after, "lastPrice", "20"));
    assert_eq!(field(&after, "volume"), None);
}

#[test]
fn tickers_do_not_disturb_one_another() {
    let mut snapshots = LinearSnapshots::new();
    snapshots.apply(snapshot(1, "BTCUSDT", &[("lastPrice", "10")]));
    snapshots.apply(snapshot(2, "ETHUSDT", &[("lastPrice", "1")]));
    snapshots.apply(delta(3, "BTCUSDT", &[("markPrice", "11")]));
    let eth = snapshots
        .apply(delta(4, "ETHUSDT", &[("lastPrice", "2")]))
        .unwrap();
    assert_eq!(eth.data.symbol, "ETHUSDT");
    assert!(has(&eth, "lastPrice", "2"));
    assert_eq!(field(&eth, "markPrice"), None);
    let btc = snapshots.apply(delta(5, "BTCUSDT", &[])).unwrap();
    assert!(has(&btc, "lastPrice", "10"));
    assert!(has(&btc, "markPrice", "11"));
}

#[test]
fn nothing_survives_a_whole_state() {
    let mut snapshots = LinearSnapshots::new();
    let updates = vec![
        delta(1, "BTCUSDT", &[("early", "0")]),
        snapshot(2, "BTCUSDT", &[("lastPrice", "10"), ("volume", "1")]),
        delta(3, "BTCUSDT", &[("volume", "2"), ("turnover", "3")]),
        snapshot(4, "BTCUSDT", &[("lastPrice", "20")]),
        snapshot(5, "ETHUSDT", &[("volume", "9")]),
        delta(6, "BTCUSDT", &[("markPrice", "21")]),
        delta(7, "BTCUSDT", &[("markPrice", "22")]),
    ];
    let mut sent: Vec<Timed<LinearTickerDataSnapshot>> = Vec::new();
    for update in updates {
        sent.extend(snapshots.apply(update));
    }
    let times: Vec<u64> = sent.iter().map(|timed| timed.time).collect();
    assert_eq!(times, vec![2, 3, 4, 5, 6, 7]);
    let last = sent.last().unwrap();
    assert!(has(last, "lastPrice", "20"));
    assert!(has(last, "markPrice", "22"));
    for gone in ["early", "volume", "turnover"] {
        assert_eq!(field(last, gone), None);
    }
}

#[test]
fn nulls_are_as_good_as_absent() {
    let entries = vec![
        ("lastPrice".to_string(), Value::from("2")),
        ("volume".to_string(), Value::Null),
        ("markPrice".to_string(), Value::from("3")),
        ("markPrice".to_string(), Value::from("4")),
        ("lastPrice".to_string(), Value::Null),
    ];
    let present = Fields::present(entries);
    assert_eq!(present.get(&"lastPrice".to_string()), Some(&Value::from("2")));
    assert_eq!(present.get(&"volume".to_string()), None);
    assert_eq!(present.get(&"markPrice".to_string()), Some(&Value::from("4")));
    let mut state = LinearTickerDataSnapshot {
        symbol: "BTCUSDT".to_string(),
        fields: fields(&[("lastPrice", "1"), ("volume", "9")]),
    };
    state.update(LinearTickerDataDelta {
        symbol: "BTCUSDT".to_string(),
        fields: present,
    });
    assert_eq!(
        state.fields.get(&"lastPrice".to_string()),
        Some(&Value::from("2"))
    );
    assert_eq!(
        state.fields.get(&"volume".to_string()),
        Some(&Value::from("9"))
    );
}

#[test]
fn states_are_delivered_up_to_a_failure() {
    let updates = || {
        vec![
            delta(1, "BTCUSDT", &[("lastPrice", "1")]),
            snapshot(2, "BTCUSDT", &[("lastPrice", "2")]),
            delta(3, "BTCUSDT", &[("lastPrice", "3")]),
            snapshot(4, "ETHUSDT", &[("lastPrice", "4")]),
        ]
    };
    let run = |room: usize| {
        let mut snapshots = LinearSnapshots::new();
        let mut delivered: Vec<u64> = Vec::new();
        for update in updates() {
            let mut outbox = Outbox::new(snapshots.apply(update).into_iter().collect());
            let mut last = Ok(());
            loop {
                match outbox.next(last) {
                    Ok(Some(timed)) if delivered.len() < room => {
                        delivered.push(timed.time);
                        last = Ok(());
                    }
                    Ok(Some(_)) => last = Err("closed".to_string()),
                    Ok(None) => break,
                    Err(_) => return delivered,
                }
            }
        }
        delivered
    };
    assert_eq!(run(9), vec![2, 3, 4]);
    assert_eq!(run(1), vec![2]);
    assert_eq!(run(0), Vec::<u64>::new());
}
