use telegram::model::Cents;
use telegram::money::{format_brl, parse_brl};

#[test]
fn shown_amounts_read_back() {
    for cents in [1, 5, 99, 100, 1050, 99_999, 100_000, 123_456_789, i64::MAX] {
        let shown = format_brl(Cents::new(cents));
        assert_eq!(parse_brl(&shown), Some(Cents::new(cents)), "{shown}");
    }
    assert_eq!(format_brl(Cents::new(123_456_789)), "R$ 1.234.567,89");
    assert_eq!(format_brl(Cents::new(-1050)), "-R$ 10,50");
    assert_eq!(parse_brl("-R$ 10,50"), None);
}
