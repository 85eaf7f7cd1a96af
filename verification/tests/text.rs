use nami::text::lower_chars;

#[test]
fn lowercase_goes_through_std() {
    assert_eq!(lower_chars("HeLLo ÀÉ"), "hello àé".chars().collect::<Vec<char>>());
    assert_eq!(lower_chars("ΣΑΣ"), "σας".chars().collect::<Vec<char>>());
}
