use cli::process_gen_pass;

fn classes_of(p: &str) -> (bool, bool, bool, bool) {
    let symbols = "!@#$%^&*()-_=+";
    let mut upper = false;
    let mut lower = false;
    let mut digit = false;
    let mut symbol = false;
    for c in p.chars() {
        if c.is_ascii_uppercase() {
            upper = true;
        } else if c.is_ascii_lowercase() {
            lower = true;
        } else if c.is_ascii_digit() {
            digit = true;
        } else if symbols.contains(c) {
            symbol = true;
        } else {
            panic!("character outside every selected class: {c:?}");
        }
    }
    (upper, lower, digit, symbol)
}

#[test]
fn generated_password_has_length_and_all_classes() {
    let p = process_gen_pass(32, true, true, true, true).unwrap();
    assert_eq!(p.len(), 32);
    assert_eq!(classes_of(&p), (true, true, true, true));
}

#[test]
fn generated_password_respects_selected_classes() {
    let p = process_gen_pass(16, false, true, true, false).unwrap();
    assert_eq!(p.len(), 16);
    let (upper, lower, digit, symbol) = classes_of(&p);
    assert!(!upper && lower && digit && !symbol);

    let q = process_gen_pass(8, true, false, false, false).unwrap();
    assert_eq!(q.len(), 8);
    let (upper, lower, digit, symbol) = classes_of(&q);
    assert!(upper && !lower && !digit && !symbol);
}

#[test]
fn minimal_length_password_still_covers_classes() {
    let p = process_gen_pass(4, true, true, true, true).unwrap();
    assert_eq!(p.len(), 4);
    assert_eq!(classes_of(&p), (true, true, true, true));
}
