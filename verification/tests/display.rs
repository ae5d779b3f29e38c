use cloud_champion::display::Separating;

#[test]
fn test_separating() {
    assert_eq!(Separating(0).to_string(), "0",);

    assert_eq!(Separating(1).to_string(), "1",);

    assert_eq!(Separating(1_000).to_string(), "1 000",);

    assert_eq!(Separating(435).to_string(), "435",);

    assert_eq!(Separating(499_999_999).to_string(), "499 999 999",);

    assert_eq!(Separating(-45_300).to_string(), "-45 300",);
}
