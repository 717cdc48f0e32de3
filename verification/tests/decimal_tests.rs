use kovel::decimal::{push_decimal, push_signed_decimal, signed_to_decimal, unsigned_to_decimal};

#[test]
fn renders_zero() {
    assert_eq!(unsigned_to_decimal(0), "0");
    assert_eq!(signed_to_decimal(0), "0");
}

#[test]
fn renders_unsigned_numbers() {
    assert_eq!(unsigned_to_decimal(7), "7");
    assert_eq!(unsigned_to_decimal(10), "10");
    assert_eq!(unsigned_to_decimal(8080), "8080");
    assert_eq!(unsigned_to_decimal(u64::MAX), "18446744073709551615");
}

#[test]
fn renders_signed_numbers_as_display_does() {
    for n in [0i32, 1, -1, 9, -9, 10, -10, 443, -443, i32::MAX, i32::MIN] {
        assert_eq!(signed_to_decimal(n), format!("{}", n));
    }
}

#[test]
fn appends_to_existing_text() {
    let mut s = String::from("port ");
    push_decimal(&mut s, 65535);
    assert_eq!(s, "port 65535");
    let mut t = String::from("delta ");
    push_signed_decimal(&mut t, -12);
    assert_eq!(t, "delta -12");
}

#[test]
fn distinct_numbers_render_distinctly() {
    let rendered: Vec<String> = (-50i32..50).map(signed_to_decimal).collect();
    for i in 0..rendered.len() {
        for j in 0..rendered.len() {
            if i != j {
                assert_ne!(rendered[i], rendered[j]);
            }
        }
    }
}
