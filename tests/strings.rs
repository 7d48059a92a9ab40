use api_client_utils::strings::{human_fmt_bytes, slug_from_lowercase, Slug};

#[test]
fn test_slug() {
    let str = "Hello World!";
    assert_eq!(Slug::to_slug(&str), "hello-world");
}

#[test]
fn slug_collapses_separators_and_trims() {
    assert_eq!("  --Hello__  World--  ".to_slug(), "hello-world");
    assert_eq!(String::from("Año Nuevo: Café & Crème").to_slug(), "ano-nuevo-cafe-creme");
    assert_eq!("ÁRBOL Über".to_slug(), "arbol-uber");
    assert_eq!("".to_slug(), "");
    assert_eq!("!!!".to_slug(), "");
    assert_eq!("a - b".to_slug(), "a-b");
    assert_eq!("Version 2.0".to_slug(), "version-20");
}

#[test]
fn slug_of_lowercase_text() {
    assert_eq!(slug_from_lowercase("hello world!"), "hello-world");
    // Upper-case letters are not lowered here: they are dropped.
    assert_eq!(slug_from_lowercase("Hello World"), "ello-orld");
    assert_eq!(slug_from_lowercase("-a-"), "a");
}

#[test]
fn human_bytes_small_counts_are_kilobytes() {
    assert_eq!(human_fmt_bytes(0), "0.00 KB");
    assert_eq!(human_fmt_bytes(1), "0.00 KB");
    assert_eq!(human_fmt_bytes(512), "0.50 KB");
    assert_eq!(human_fmt_bytes(1024), "1.00 KB");
    assert_eq!(human_fmt_bytes(1536), "1.50 KB");
    assert_eq!(human_fmt_bytes(1048575), "1024.00 KB");
}

#[test]
fn human_bytes_round_like_float_formatting() {
    for bytes in [5u64, 6, 128, 384, 640, 1000, 123_456, 999_999, 1_048_575] {
        let expected = format!("{:.2} KB", bytes as f64 / 1024.0);
        assert_eq!(human_fmt_bytes(bytes), expected, "bytes = {bytes}");
    }
    assert_eq!(human_fmt_bytes(128), "0.12 KB");
    assert_eq!(human_fmt_bytes(384), "0.38 KB");
}

#[test]
fn human_bytes_larger_units() {
    assert_eq!(human_fmt_bytes(1 << 20), "1.00 MB");
    assert_eq!(human_fmt_bytes(3 << 29), "1.50 GB");
    assert_eq!(human_fmt_bytes(1 << 30), "1.00 GB");
    assert_eq!(human_fmt_bytes(1 << 40), "1.00 TB");
    assert_eq!(human_fmt_bytes(1 << 50), "1.00 PB");
    assert_eq!(human_fmt_bytes(1 << 60), "1024.00 PB");
    let expected = format!("{:.2} PB", (u64::MAX >> 40) as f64 / 1024.0);
    assert_eq!(human_fmt_bytes(u64::MAX), expected);
    assert_eq!(human_fmt_bytes(u64::MAX), "16384.00 PB");
}
