use serial_loader::banner::intro_banner;

#[test]
fn the_banner_is_cyan_and_ends_the_colouring() {
    assert_eq!(intro_banner("loader", "1.2.3"), "\x1b[38;5;6m\nloader - 1.2.3\n\x1b[m");
    assert_eq!(intro_banner("", ""), "\x1b[38;5;6m\n - \n\x1b[m");
}

#[test]
fn the_banner_starts_and_ends_with_escape_sequences() {
    let banner = intro_banner("x", "0");
    assert!(banner.starts_with("\u{1b}[38;5;6m"));
    assert!(banner.ends_with("\u{1b}[m"));
    assert_eq!(banner.len(), 9 + 1 + 1 + 3 + 1 + 1 + 3);
}
