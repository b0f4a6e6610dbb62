use tii::{Headers, PercentDecode, TiiHttpHeader, TiiQValue};

#[test]
fn constutil() {
    assert_eq!(TiiQValue::from_clamped(0).as_str(), "0.0");
    assert_eq!(TiiQValue::from_clamped(1).as_str(), "0.001");
    assert_eq!(TiiQValue::from_clamped(10).as_str(), "0.01");
    assert_eq!(TiiQValue::from_clamped(999).as_str(), "0.999");
    assert_eq!(TiiQValue::from_clamped(1000).as_str(), "1.0");
}

#[test]
fn decode_unreserved_chars() {
    let string = "thisisatest";
    let decoded = string.percent_decode();

    assert_eq!(decoded, Some(string.as_bytes().to_vec()));
}

#[test]
fn decode_reserved_chars() {
    let string = "this%20is%20a%20test%21%20%28and%20brackets%29";
    let decoded = string.percent_decode();

    assert_eq!(decoded, Some(b"this is a test! (and brackets)".to_vec()));
}

#[test]
fn decode_bytes() {
    let string = "this%20is%20a%20%00null%20character";
    let decoded = string.percent_decode();

    assert_eq!(decoded, Some(b"this is a \0null character".to_vec()));
}

#[test]
fn test_header_replace_all() {
    let mut n = Headers::new();
    assert!(n.len() == 0);
    n.add("Some", "Header");
    n.add("Another", "Value");
    n.add("Another", "Meep");
    n.add("Mop", "Dop");
    let mut it = n.iter();
    assert_eq!(TiiHttpHeader::new("Some", "Header"), it.next().unwrap().clone());
    assert_eq!(TiiHttpHeader::new("Another", "Value"), it.next().unwrap().clone());
    assert_eq!(TiiHttpHeader::new("Another", "Meep"), it.next().unwrap().clone());
    assert_eq!(TiiHttpHeader::new("Mop", "Dop"), it.next().unwrap().clone());
    assert!(it.next().is_none());
    drop(it);

    let rmoved = n.replace_all("Another", "Friend");
    let mut it = n.iter();
    assert_eq!(TiiHttpHeader::new("Some", "Header"), it.next().unwrap().clone());
    assert_eq!(TiiHttpHeader::new("Mop", "Dop"), it.next().unwrap().clone());
    assert_eq!(TiiHttpHeader::new("Another", "Friend"), it.next().unwrap().clone());
    assert!(it.next().is_none());

    let mut it = rmoved.iter();
    assert_eq!(TiiHttpHeader::new("Another", "Value"), it.next().unwrap().clone());
    assert_eq!(TiiHttpHeader::new("Another", "Meep"), it.next().unwrap().clone());
    assert!(it.next().is_none());
}
