use hd_wallet::addresses::{cardano_account_generate_addresses, Account, AddressGenerator};
use hd_wallet::chain::{Addressing, ChainType};

/// A derivation for the tests: the address spells the query, and every index
/// that is a multiple of `reject_every` is rejected.
fn derive(query: Addressing, reject_every: u32) -> Option<String> {
    if reject_every != 0 && query.index % reject_every == 0 {
        None
    } else {
        let chain = if query.chain.is_internal() { "int" } else { "ext" };
        Some(format!("addr-{}-{}-{}", query.account, chain, query.index))
    }
}

fn run(account: &Account, internal: bool, start: u32, count: usize, reject_every: u32) -> Vec<String> {
    let mut generator = cardano_account_generate_addresses(account, internal, start, count);
    while let Some(query) = generator.pending() {
        generator = generator.supply(derive(query, reject_every));
    }
    generator.into_addresses()
}

#[test]
fn queries_start_at_the_first_index_and_rise_by_one() {
    let mut generator = AddressGenerator::new(7, ChainType::External, 10, 4);
    let mut asked = Vec::new();
    while let Some(query) = generator.pending() {
        asked.push(query);
        generator = generator.supply(Some(String::from("a")));
    }
    assert_eq!(
        asked,
        vec![
            Addressing { account: 7, chain: ChainType::External, index: 10 },
            Addressing { account: 7, chain: ChainType::External, index: 11 },
            Addressing { account: 7, chain: ChainType::External, index: 12 },
            Addressing { account: 7, chain: ChainType::External, index: 13 },
        ]
    );
    assert_eq!(generator.written(), 4);
    assert_eq!(generator.rejected(), 0);
}

#[test]
fn exactly_count_addresses_where_nothing_is_rejected() {
    let account = Account::new("savings", 0);
    let addresses = run(&account, false, 0, 5, 0);
    assert_eq!(
        addresses,
        vec!["addr-0-ext-0", "addr-0-ext-1", "addr-0-ext-2", "addr-0-ext-3", "addr-0-ext-4"]
    );
}

#[test]
fn rejected_index_is_left_out_without_a_gap() {
    let account = Account::new("savings", 2);
    let addresses = run(&account, true, 4, 6, 3);
    assert_eq!(addresses, vec!["addr-2-int-4", "addr-2-int-5", "addr-2-int-7", "addr-2-int-8"]);
}

#[test]
fn rejections_are_counted_and_do_not_end_the_walk() {
    let mut generator = AddressGenerator::new(0, ChainType::External, 0, 3);
    generator = generator.supply(None);
    assert_eq!(generator.written(), 0);
    assert_eq!(generator.rejected(), 1);
    generator = generator.supply(Some(String::from("one")));
    generator = generator.supply(None);
    assert_eq!(generator.pending(), None);
    assert_eq!(generator.written(), 1);
    assert_eq!(generator.rejected(), 2);
    assert_eq!(generator.into_addresses(), vec!["one"]);
}

#[test]
fn generation_twice_with_the_same_arguments_gives_the_same_sequence() {
    let account = Account::new("main", 1);
    let first = run(&account, false, 100, 50, 7);
    let second = run(&account, false, 100, 50, 7);
    assert_eq!(first, second);
    assert_eq!(first.len(), 50 - 7);
}

#[test]
fn generation_does_not_depend_on_the_alias() {
    let one = Account::new("one", 3);
    let other = Account::new("another label", 3);
    assert_eq!(run(&one, true, 0, 8, 0), run(&other, true, 0, 8, 0));
    assert_eq!(one.alias(), "one");
    assert_eq!(other.alias(), "another label");
    assert_eq!(one.index(), other.index());
}

#[test]
fn internal_and_external_chain_ask_different_queries() {
    let account = Account::new("main", 0);
    let mut internal = cardano_account_generate_addresses(&account, true, 0, 16);
    let mut external = cardano_account_generate_addresses(&account, false, 0, 16);
    for _ in 0..16 {
        let a = internal.pending().expect("pending");
        let b = external.pending().expect("pending");
        assert_eq!(a.index, b.index);
        assert_eq!(a.account, b.account);
        assert_eq!(a.chain, ChainType::Internal);
        assert_eq!(b.chain, ChainType::External);
        assert_ne!(a, b);
        internal = internal.supply(derive(a, 0));
        external = external.supply(derive(b, 0));
    }
    let internal = internal.into_addresses();
    let external = external.into_addresses();
    for (a, b) in internal.iter().zip(external.iter()) {
        assert_ne!(a, b);
    }
}

#[test]
fn no_query_for_a_count_of_zero() {
    let generator = AddressGenerator::new(0, ChainType::External, 5, 0);
    assert_eq!(generator.pending(), None);
    assert_eq!(generator.into_addresses(), Vec::<String>::new());
}

#[test]
fn walk_ends_at_the_largest_index() {
    let account = Account::new("edge", 0);
    let mut generator = cardano_account_generate_addresses(&account, false, u32::MAX - 2, 10);
    let mut asked = Vec::new();
    while let Some(query) = generator.pending() {
        asked.push(query.index);
        generator = generator.supply(derive(query, 0));
    }
    assert_eq!(asked, vec![u32::MAX - 2, u32::MAX - 1, u32::MAX]);
    assert_eq!(generator.written(), 3);
}

#[test]
fn walk_from_the_largest_index_asks_once() {
    let mut generator = AddressGenerator::new(0, ChainType::Internal, u32::MAX, usize::MAX);
    assert_eq!(
        generator.pending(),
        Some(Addressing { account: 0, chain: ChainType::Internal, index: u32::MAX })
    );
    generator = generator.supply(None);
    assert_eq!(generator.pending(), None);
    assert_eq!(generator.written(), 0);
}

#[test]
fn answer_without_a_pending_query_is_dropped() {
    let mut generator = AddressGenerator::new(0, ChainType::External, 0, 1);
    generator = generator.supply(Some(String::from("first")));
    assert_eq!(generator.pending(), None);
    generator = generator.supply(Some(String::from("late")));
    generator = generator.supply(None);
    assert_eq!(generator.written(), 1);
    assert_eq!(generator.rejected(), 0);
    assert_eq!(generator.into_addresses(), vec!["first"]);
}

#[test]
fn chain_follows_the_internal_flag() {
    assert_eq!(ChainType::from_internal(true), ChainType::Internal);
    assert_eq!(ChainType::from_internal(false), ChainType::External);
    assert!(ChainType::Internal.is_internal());
    assert!(!ChainType::External.is_internal());
}

#[test]
fn inputs_carry_account_zero_external_chain_index_zero() {
    assert_eq!(Addressing::of_inputs(), Addressing::new(0, ChainType::External, 0));
    assert_eq!(Addressing::of_inputs(), Addressing { account: 0, chain: ChainType::External, index: 0 });
}
