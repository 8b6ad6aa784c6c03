use confgrabber::text::{decimal_string, output_file_name, output_path};

#[test]
fn decimal_rendering() {
    assert_eq!(decimal_string(0), "0");
    assert_eq!(decimal_string(9), "9");
    assert_eq!(decimal_string(10), "10");
    assert_eq!(decimal_string(404), "404");
    assert_eq!(decimal_string(65535), "65535");
}

#[test]
fn output_names() {
    assert_eq!(output_file_name("10.0.0.1"), "10.0.0.1.txt");
    assert_eq!(output_path("configs", "sw1"), "configs/sw1.txt");
    assert_eq!(output_path(".", "sw1"), "./sw1.txt");
}
