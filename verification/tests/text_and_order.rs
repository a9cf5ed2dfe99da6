use hmk::being::ShockState;
use hmk::initiative::{initiative_order, render_initiative_line};
use hmk::text::{append_filled, append_padded, char_count_up_to, decimal_string};

#[test]
fn decimal_numerals() {
    assert_eq!(decimal_string(0), "0");
    assert_eq!(decimal_string(7), "7");
    assert_eq!(decimal_string(1234), "1234");
    assert_eq!(decimal_string(-45), "-45");
    assert_eq!(decimal_string(i64::MIN), "-9223372036854775808");
}

#[test]
fn padding_and_filling() {
    let mut s = String::new();
    append_filled(&mut s, "Will: ", ".", 10);
    assert_eq!(s, "Will: ....");
    let mut s = String::from(">");
    append_padded(&mut s, "7", 3);
    assert_eq!(s, ">  7");
    let mut s = String::new();
    append_padded(&mut s, "12345", 2);
    assert_eq!(s, "12345");
    assert_eq!(char_count_up_to("Kûrbúl", 100), 6);
    assert_eq!(char_count_up_to("Kûrbúl", 4), 4);
}

#[test]
fn initiative_goes_highest_first() {
    assert_eq!(initiative_order(&vec![30, 50, 30, 70]), vec![3, 1, 2, 0]);
    assert_eq!(initiative_order(&vec![]), Vec::<usize>::new());
    assert_eq!(initiative_order(&vec![5, 5, 5]), vec![2, 1, 0]);
}

#[test]
fn initiative_lines() {
    assert_eq!(render_initiative_line("Ada", 45, Some(ShockState::Stunned)), "Ada        45 Stunned");
    assert_eq!(render_initiative_line("Bartholomew", 7, None), "Bartholomew 7 ");
}
