#[test]
fn it_works() {
    let result = 2 + 2;
    assert_eq!(result, 4);
}

#[test]
fn add_small_numbers() {
    assert_eq!(childproc::add(2, 2), 4);
    assert_eq!(childproc::add(0, 7), 7);
}
