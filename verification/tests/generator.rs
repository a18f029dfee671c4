use rpc_perf::codec;
use rpc_perf::config::Action;
use rpc_perf::config::Class;
use rpc_perf::config::Command;
use rpc_perf::config::Config;
use rpc_perf::config::Generator;
use rpc_perf::config::Keyspace;
use rpc_perf::config::KeyspaceError;
use rpc_perf::config::KeyspaceGenerator;
use rpc_perf::config::Value;
use rpc_perf::config::ValueError;
use rpc_perf::config::generator::integer_bound_u64;

fn command(action: Action, weight: usize, items: Option<usize>) -> Command {
    Command {
        action,
        weight,
        ttl: Some(30),
        items,
        watermark_low: Some(2),
        watermark_high: Some(9),
    }
}

fn value(length: usize, weight: usize, class: Class) -> Value {
    Value { length, weight, class }
}

fn keyspace(length: usize, count: Option<usize>, commands: Vec<Command>, values: Vec<Value>) -> Keyspace {
    Keyspace { length, weight: 1, count, commands, values }
}

fn is_key(k: &str, length: usize, count: usize) -> bool {
    k.len() == length.max(1)
        && k.chars().all(|c| c.is_ascii_digit())
        && k.parse::<usize>().map(|n| n < count).unwrap_or(false)
}

fn is_alnum(s: &str, length: usize) -> bool {
    s.chars().count() == length && s.chars().all(|c| c.is_ascii_alphanumeric())
}

#[test]
fn generator_without_count_uses_every_key_of_the_length() {
    let g = keyspace(3, None, vec![], vec![]).generator().unwrap();
    assert_eq!(g.key_count, 1000);
    assert_eq!(g.length, 3);
    assert_eq!(g.weight(), 1);
    let g = keyspace(0, None, vec![], vec![]).generator().unwrap();
    assert_eq!(g.key_count, 1);
}

#[test]
fn generator_keeps_a_count_that_fits() {
    let g = keyspace(2, Some(100), vec![], vec![]).generator().unwrap();
    assert_eq!(g.key_count, 100);
    let g = keyspace(2, Some(7), vec![], vec![]).generator().unwrap();
    assert_eq!(g.key_count, 7);
    let g = keyspace(0, Some(1), vec![], vec![]).generator().unwrap();
    assert_eq!(g.key_count, 1);
}

#[test]
fn generator_refuses_a_count_that_needs_more_digits() {
    let r = keyspace(2, Some(101), vec![], vec![]).generator();
    assert!(matches!(r, Err(KeyspaceError::CountTooLarge { length: 2, count: 101 })));
    let r = keyspace(0, Some(2), vec![], vec![]).generator();
    assert!(matches!(r, Err(KeyspaceError::CountTooLarge { length: 0, count: 2 })));
}

#[test]
fn generator_refuses_a_length_too_long_to_count() {
    let too_long = usize::MAX.to_string().len();
    let r = keyspace(too_long, None, vec![], vec![]).generator();
    assert!(matches!(r, Err(KeyspaceError::LengthTooLarge { length }) if length == too_long));
    let g = keyspace(too_long - 1, None, vec![], vec![]).generator().unwrap();
    assert_eq!(g.key_count, 10usize.pow((too_long - 1) as u32));
}

#[test]
fn config_generator_reports_the_first_failing_keyspace() {
    let mut config = Config::default();
    config.keyspace.push(keyspace(1, Some(11), vec![], vec![]));
    config.keyspace.push(keyspace(99, None, vec![], vec![]));
    let r = config.generator();
    assert!(matches!(r, Err(KeyspaceError::CountTooLarge { length: 1, count: 11 })));
}

#[test]
fn default_config_generates_gets_and_sets() {
    let g = Config::default().generator().unwrap();
    assert_eq!(g.keyspaces.len(), 1);
    assert_eq!(g.keyspaces[0].key_count, 10_000_000);
    assert!(g.is_ready());
    let mut rng = rand::thread_rng();
    for _ in 0..200 {
        match g.generate(&mut rng).unwrap() {
            codec::Command::Get { key } => assert!(is_key(&key, 8, 10_000_000)),
            codec::Command::SetKey { key, value, ttl } => {
                assert!(is_key(&key, 8, 10_000_000));
                assert!(is_alnum(&value, 64));
                assert_eq!(ttl, None);
            }
            other => panic!("unexpected request {:?}", other),
        }
    }
}

#[test]
fn keys_are_padded_numbers_below_the_count() {
    let g = keyspace(4, Some(20), vec![], vec![]).generator().unwrap();
    assert_eq!(g.key_for(7), "0007");
    assert_eq!(g.key_for(19), "0019");
    let mut rng = rand::thread_rng();
    let mut seen = std::collections::HashSet::new();
    for _ in 0..500 {
        let k = g.choose_key(&mut rng);
        assert!(is_key(&k, 4, 20), "key {:?}", k);
        seen.insert(k);
    }
    assert!(seen.len() > 1);
    let g = keyspace(3, Some(1), vec![], vec![]).generator().unwrap();
    assert_eq!(g.choose_key(&mut rng), "000");
}

#[test]
fn only_commands_with_weight_are_chosen() {
    let commands = vec![
        command(Action::Get, 0, None),
        command(Action::Delete, 5, None),
        command(Action::Llen, 0, None),
    ];
    let g = keyspace(2, None, commands, vec![]).generator().unwrap();
    let mut rng = rand::thread_rng();
    for _ in 0..100 {
        assert_eq!(g.choose_command(&mut rng).action(), Action::Delete);
    }
}

#[test]
fn only_values_with_weight_are_chosen() {
    let values = vec![
        value(3, 0, Class::Alphanumeric),
        value(1, 2, Class::Integer),
        value(5, 0, Class::Alphanumeric),
    ];
    let g = keyspace(2, None, vec![], values).generator().unwrap();
    let mut rng = rand::thread_rng();
    for _ in 0..200 {
        assert_eq!(g.choose_value(&mut rng).length(), 1);
        let s = g.choose_value_string(&mut rng).unwrap();
        let n: u64 = s.parse().unwrap();
        assert!(n < 255);
        assert_eq!(s, n.to_string());
    }
}

#[test]
fn integer_values_stay_below_the_largest_of_their_size() {
    let mut rng = rand::thread_rng();
    for (len, bound) in [(2usize, u16::MAX as u64), (4, u32::MAX as u64), (8, u64::MAX)] {
        let g = keyspace(2, None, vec![], vec![value(len, 1, Class::Integer)]).generator().unwrap();
        for _ in 0..50 {
            let s = g.choose_value_string(&mut rng).unwrap();
            let n: u64 = s.parse().unwrap();
            assert!(n < bound);
            assert_eq!(s, n.to_string());
        }
    }
}

#[test]
fn alphanumeric_values_have_their_length() {
    let mut rng = rand::thread_rng();
    for len in [0usize, 1, 16, 100] {
        let g = keyspace(2, None, vec![], vec![value(len, 1, Class::Alphanumeric)]).generator().unwrap();
        let s = g.choose_value_string(&mut rng).unwrap();
        assert!(is_alnum(&s, len), "value {:?}", s);
    }
}

fn single(action: Action, items: Option<usize>) -> (KeyspaceGenerator, codec::Command) {
    let values = vec![value(6, 1, Class::Alphanumeric)];
    let g = keyspace(5, Some(1000), vec![command(action, 1, items)], values).generator().unwrap();
    let generator = Generator { keyspaces: vec![g] };
    assert!(generator.is_ready());
    let mut rng = rand::thread_rng();
    let r = generator.generate(&mut rng).unwrap();
    (generator.keyspaces.into_iter().next().unwrap(), r)
}

fn all_keys(ks: &[String]) -> bool {
    ks.iter().all(|k| is_key(k, 5, 1000))
}

fn all_values(vs: &[String]) -> bool {
    vs.iter().all(|v| is_alnum(v, 6))
}

#[test]
fn requests_of_each_action() {
    match single(Action::Delete, None).1 {
        codec::Command::Delete { key } => assert!(is_key(&key, 5, 1000)),
        r => panic!("{:?}", r),
    }
    match single(Action::Hdel, Some(3)).1 {
        codec::Command::Hdel { key, fields } => {
            assert!(is_key(&key, 5, 1000));
            assert_eq!(fields.len(), 3);
            assert!(all_keys(&fields));
        }
        r => panic!("{:?}", r),
    }
    match single(Action::Hget, None).1 {
        codec::Command::Hget { fields, .. } => assert_eq!(fields.len(), 1),
        r => panic!("{:?}", r),
    }
    match single(Action::Hset, Some(4)).1 {
        codec::Command::Hset { key, fields, values, ttl } => {
            assert!(is_key(&key, 5, 1000));
            assert_eq!(fields.len(), 4);
            assert_eq!(values.len(), 4);
            assert!(all_keys(&fields));
            assert!(all_values(&values));
            assert_eq!(ttl, Some(30));
        }
        r => panic!("{:?}", r),
    }
    match single(Action::Lpush, Some(2)).1 {
        codec::Command::Lpush { values, .. } => {
            assert_eq!(values.len(), 2);
            assert!(all_values(&values));
        }
        r => panic!("{:?}", r),
    }
    match single(Action::Lrange, Some(8)).1 {
        codec::Command::Lrange { start, stop, .. } => assert_eq!((start, stop), (0, 8)),
        r => panic!("{:?}", r),
    }
    match single(Action::Ltrim, None).1 {
        codec::Command::Ltrim { start, stop, .. } => assert_eq!((start, stop), (0, 1)),
        r => panic!("{:?}", r),
    }
    match single(Action::SetKey, None).1 {
        codec::Command::SetKey { value, ttl, .. } => {
            assert!(is_alnum(&value, 6));
            assert_eq!(ttl, Some(30));
        }
        r => panic!("{:?}", r),
    }
    match single(Action::SarrayCreate, None).1 {
        codec::Command::SarrayCreate { esize, watermark_low, watermark_high, .. } => {
            assert_eq!(esize, 6);
            assert_eq!((watermark_low, watermark_high), (Some(2), Some(9)));
        }
        r => panic!("{:?}", r),
    }
    match single(Action::SarrayGet, Some(5)).1 {
        codec::Command::SarrayGet { index, count, .. } => assert_eq!((index, count), (None, Some(5))),
        r => panic!("{:?}", r),
    }
    match single(Action::SarrayGet, None).1 {
        codec::Command::SarrayGet { count, .. } => assert_eq!(count, None),
        r => panic!("{:?}", r),
    }
    match single(Action::SarrayTruncate, None).1 {
        codec::Command::SarrayTruncate { count, .. } => assert_eq!(count, 0),
        r => panic!("{:?}", r),
    }
    match single(Action::SarrayTruncate, Some(12)).1 {
        codec::Command::SarrayTruncate { count, .. } => assert_eq!(count, 12),
        r => panic!("{:?}", r),
    }
    match single(Action::SarrayRemove, Some(0)).1 {
        codec::Command::SarrayRemove { values, .. } => assert!(values.is_empty()),
        r => panic!("{:?}", r),
    }
    assert!(matches!(single(Action::Get, None).1, codec::Command::Get { .. }));
    assert!(matches!(single(Action::Llen, None).1, codec::Command::Llen { .. }));
    assert!(matches!(single(Action::Lpushx, None).1, codec::Command::Lpushx { .. }));
    assert!(matches!(single(Action::Rpush, None).1, codec::Command::Rpush { .. }));
    assert!(matches!(single(Action::Rpushx, None).1, codec::Command::Rpushx { .. }));
    assert!(matches!(single(Action::SarrayDelete, None).1, codec::Command::SarrayDelete { .. }));
    assert!(matches!(single(Action::SarrayFind, None).1, codec::Command::SarrayFind { .. }));
    assert!(matches!(single(Action::SarrayInsert, None).1, codec::Command::SarrayInsert { .. }));
    assert!(matches!(single(Action::SarrayLen, None).1, codec::Command::SarrayLen { .. }));
}

#[test]
fn readiness_checks() {
    let empty = Generator { keyspaces: vec![] };
    assert!(!empty.is_ready());

    let no_commands = keyspace(2, None, vec![], vec![]).generator().unwrap();
    assert!(!no_commands.is_ready());
    assert!(!Generator { keyspaces: vec![no_commands] }.is_ready());

    let zero_weights = keyspace(2, None, vec![command(Action::Get, 0, None)], vec![]).generator().unwrap();
    assert!(!zero_weights.is_ready());

    let gets_only = keyspace(2, None, vec![command(Action::Get, 1, None)], vec![]).generator().unwrap();
    assert!(gets_only.is_ready());

    let sets_without_values = keyspace(2, None, vec![command(Action::SetKey, 1, None)], vec![]).generator().unwrap();
    assert!(!sets_without_values.is_ready());

    let no_items = keyspace(2, None, vec![command(Action::Lpush, 1, Some(0))], vec![]).generator().unwrap();
    assert!(no_items.is_ready());

    let odd_integer = keyspace(
        2,
        None,
        vec![command(Action::SetKey, 1, None)],
        vec![value(3, 1, Class::Integer)],
    )
    .generator()
    .unwrap();
    assert!(odd_integer.is_ready());

    let odd_integer_never_picked = keyspace(
        2,
        None,
        vec![command(Action::SetKey, 1, None)],
        vec![value(3, 0, Class::Integer), value(4, 1, Class::Integer)],
    )
    .generator()
    .unwrap();
    assert!(odd_integer_never_picked.is_ready());

    let create_only_needs_a_value = keyspace(
        2,
        None,
        vec![command(Action::SarrayCreate, 1, None)],
        vec![value(3, 1, Class::Integer)],
    )
    .generator()
    .unwrap();
    assert!(create_only_needs_a_value.is_ready());

    let overflowing = Generator {
        keyspaces: vec![
            keyspace(2, None, vec![command(Action::Get, usize::MAX, None)], vec![]).generator().unwrap(),
            keyspace(2, None, vec![command(Action::Get, 1, None)], vec![]).generator().unwrap(),
        ],
    };
    assert!(overflowing.is_ready());
    let mut heavy = overflowing;
    heavy.keyspaces[0].weight = usize::MAX;
    assert!(!heavy.is_ready());
}

#[test]
fn different_key_numbers_give_different_keys() {
    let g = keyspace(3, None, vec![], vec![]).generator().unwrap();
    let keys: std::collections::HashSet<String> = (0..g.key_count).map(|i| g.key_for(i)).collect();
    assert_eq!(keys.len(), 1000);
    assert!(keys.iter().all(|k| is_key(k, 3, 1000)));
}

#[test]
fn integer_values_of_other_lengths_are_reported() {
    let mut rng = rand::thread_rng();
    let g = keyspace(2, None, vec![], vec![value(3, 1, Class::Integer)]).generator().unwrap();
    assert_eq!(
        g.choose_value_string(&mut rng),
        Err(ValueError::UnsupportedIntegerLength { length: 3 })
    );
    let generator = Generator {
        keyspaces: vec![keyspace(
            2,
            None,
            vec![command(Action::SetKey, 1, None)],
            vec![value(3, 1, Class::Integer)],
        )
        .generator()
        .unwrap()],
    };
    assert!(generator.is_ready());
    assert_eq!(
        generator.generate(&mut rng).map(|_| ()),
        Err(ValueError::UnsupportedIntegerLength { length: 3 })
    );
    let gets = Generator {
        keyspaces: vec![keyspace(
            2,
            None,
            vec![command(Action::Get, 1, None)],
            vec![value(3, 1, Class::Integer)],
        )
        .generator()
        .unwrap()],
    };
    assert!(gets.generate(&mut rng).is_ok());
}

#[test]
fn integer_bounds_by_length() {
    assert_eq!(integer_bound_u64(1), 255);
    assert_eq!(integer_bound_u64(2), 65_535);
    assert_eq!(integer_bound_u64(4), 4_294_967_295);
    assert_eq!(integer_bound_u64(8), u64::MAX);
}

#[test]
fn value_string_for_follows_the_given_shape() {
    let mut rng = rand::thread_rng();
    let g = keyspace(2, None, vec![], vec![]).generator().unwrap();
    let s = g.value_string_for(&value(7, 0, Class::Alphanumeric), &mut rng).unwrap();
    assert!(is_alnum(&s, 7));
    let s = g.value_string_for(&value(1, 0, Class::Integer), &mut rng).unwrap();
    assert!(s.parse::<u64>().unwrap() < 255);
    let s = g.value_string_for(&value(2, 3, Class::Integer), &mut rng).unwrap();
    assert!(s.parse::<u64>().unwrap() < 65_535);
    for len in [0usize, 3, 5, 16] {
        assert_eq!(
            g.value_string_for(&value(len, 1, Class::Integer), &mut rng),
            Err(ValueError::UnsupportedIntegerLength { length: len })
        );
    }
}

#[test]
fn only_the_picked_shape_is_drawn() {
    let mut rng = rand::thread_rng();
    let values = vec![value(3, 0, Class::Integer), value(4, 1, Class::Alphanumeric)];
    let g = keyspace(2, None, vec![], values).generator().unwrap();
    for _ in 0..50 {
        let s = g.choose_value_string(&mut rng).unwrap();
        assert!(is_alnum(&s, 4));
    }
}
