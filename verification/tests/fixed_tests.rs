use llama_manager::fixed::Fixed2;

#[test]
fn fixed_rendering_keeps_two_decimals() {
    assert_eq!(Fixed2::from_centi(80).fmt_fixed(), "0.80");
    assert_eq!(Fixed2::from_centi(100).fmt_fixed(), "1.00");
    assert_eq!(Fixed2::from_centi(5).fmt_fixed(), "0.05");
    assert_eq!(Fixed2::from_centi(0).fmt_fixed(), "0.00");
    assert_eq!(Fixed2::from_centi(-50).fmt_fixed(), "-0.50");
    assert_eq!(Fixed2::from_centi(12345).fmt_fixed(), "123.45");
}

#[test]
fn trimmed_rendering_drops_trailing_zeros() {
    assert_eq!(Fixed2::from_centi(200).fmt_trimmed(), "2");
    assert_eq!(Fixed2::from_centi(250).fmt_trimmed(), "2.5");
    assert_eq!(Fixed2::from_centi(255).fmt_trimmed(), "2.55");
    assert_eq!(Fixed2::from_centi(-100).fmt_trimmed(), "-1");
    assert_eq!(Fixed2::from_centi(-5).fmt_trimmed(), "-0.05");
    assert_eq!(Fixed2::from_centi(0).fmt_trimmed(), "0");
}

#[test]
fn whole_numbers_scale_to_hundredths() {
    assert_eq!(Fixed2::whole(2).centi, 200);
    assert_eq!(Fixed2::whole(-1).centi, -100);
    assert_eq!(Fixed2::whole(0).centi, 0);
}
