use yodoprice::{commafy, list_line, omitted_string};

#[test]
fn omitted_string_test() {
    assert_eq!("あいうえお", omitted_string("あいうえお"));
    assert_eq!(
        "あいうえおかきくけこさしすせそたちつてと12345...",
        omitted_string("あいうえおかきくけこさしすせそたちつてと123456789")
    );
    assert_eq!(
        "あいうえおかきくけこさしすせそたちつてとなにぬねの...",
        omitted_string("あいうえおかきくけこさしすせそたちつてとなにぬねのまみむめも")
    );
    assert_eq!(
        "あいうえおかきくけこさしすせそたちつてとなにぬねの",
        omitted_string("あいうえおかきくけこさしすせそたちつてとなにぬねの")
    );
}

#[test]
fn name() {
    assert_eq!(commafy(0_u32.into()), "0");
    assert_eq!(commafy(1234), "1,234");
    assert_eq!(commafy(-1), "-1");
    assert_eq!(commafy(-100), "-100");
    assert_eq!(commafy(-1000), "-1,000");
}

#[test]
fn omitted_string_edges() {
    assert_eq!(omitted_string(""), "");
    assert_eq!(omitted_string("abcdefghijklmnopqrstuvwxy"), "abcdefghijklmnopqrstuvwxy");
    assert_eq!(omitted_string("abcdefghijklmnopqrstuvwxyz"), "abcdefghijklmnopqrstuvwxy...");
}

#[test]
fn commafy_more_values() {
    assert_eq!(commafy(999), "999");
    assert_eq!(commafy(1000), "1,000");
    assert_eq!(commafy(1000000), "1,000,000");
    assert_eq!(commafy(-999999), "-999,999");
    assert_eq!(commafy(1002003), "1,002,003");
    assert_eq!(commafy(u64::MAX as i128), "18,446,744,073,709,551,615");
    assert_eq!(
        commafy(i128::MIN),
        "-170,141,183,460,469,231,731,687,303,715,884,105,728"
    );
}

#[test]
fn list_line_layout() {
    assert_eq!(
        list_line(3, "カメラ", (12000, 9800, 10500)),
        "3: カメラ  ￥10,500 - (￥12,000/￥9,800)"
    );
    assert_eq!(
        list_line(12, "abcdefghijklmnopqrstuvwxyz", (5, 5, 5)),
        "12: abcdefghijklmnopqrstuvwxy...  ￥5 - (￥5/￥5)"
    );
}
