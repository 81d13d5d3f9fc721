use hd_wallet::chain::{Addressing, ChainType};
use hd_wallet::transaction::{sum_inputs, sum_outputs, Input, Output, OutputReference};

fn output(value: u64) -> Output {
    Output { address: String::from("Ae2"), value }
}

fn input(value: u64) -> Input {
    Input {
        spends: OutputReference { id: vec![0; 32], index: 0 },
        redeems: output(value),
        addressing: Addressing::of_inputs(),
    }
}

#[test]
fn total_of_no_amounts_is_zero() {
    assert_eq!(sum_outputs(&Vec::new()), 0);
    assert_eq!(sum_inputs(&Vec::new()), 0);
}

#[test]
fn total_is_the_sum_of_the_amounts() {
    assert_eq!(sum_outputs(&vec![output(1), output(20), output(300)]), 321);
    assert_eq!(sum_inputs(&vec![input(400_000), input(600_000)]), 1_000_000);
    assert_eq!(sum_outputs(&vec![output(0), output(7)]), 7);
}

#[test]
fn total_does_not_wrap_at_64_bits() {
    let limit = u64::MAX as u128;
    assert_eq!(sum_outputs(&vec![output(u64::MAX), output(u64::MAX), output(2)]), 2 * limit + 2);
    assert_eq!(sum_inputs(&vec![input(u64::MAX), input(1)]), limit + 1);
}

#[test]
fn addressing_holds_what_it_was_made_of() {
    let addressing = Addressing::new(3, ChainType::Internal, 9);
    assert_eq!(addressing.account, 3);
    assert_eq!(addressing.chain, ChainType::Internal);
    assert_eq!(addressing.index, 9);
    assert_ne!(Addressing::new(3, ChainType::Internal, 9), Addressing::new(3, ChainType::External, 9));
}
