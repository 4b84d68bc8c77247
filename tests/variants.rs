use flocking::variants::generate_variants;

#[test]
fn variants_in_order() {
    let r = generate_variants(10u32, vec![1u32, 2, 3], |a: &u32, b: u32| *a * b);
    assert_eq!(r, vec![10, 20, 30]);
}

#[test]
fn variants_of_no_modifiers() {
    let r: Vec<String> = generate_variants(String::from("x"), Vec::<u8>::new(), |a: &String, b: u8| {
        format!("{}{}", a, b)
    });
    assert!(r.is_empty());
}
