use tii::{
    HttpMethod, HttpVersion, TiiAcceptMimeType, TiiAcceptQualityMimeType, TiiMimeGroup, TiiMimeType,
    TiiQValue,
};

#[test]
fn qvalue_text_reads_back() {
    for q in [0u16, 1, 10, 100, 250, 999, 1000] {
        let v = TiiQValue::from_clamped(q);
        assert_eq!(TiiQValue::parse(&v.as_str()).map(|x| x.as_u16()), Some(q));
    }
    assert_eq!(TiiQValue::from_clamped(5000).as_u16(), 1000);
}

#[test]
fn method_text_reads_back() {
    for m in HttpMethod::well_known() {
        assert_eq!(HttpMethod::from(m.as_str()), m);
    }
    assert_eq!(HttpMethod::from("purge"), HttpMethod::Custom("PURGE".to_string()));
    assert_eq!(HttpMethod::from(HttpMethod::Custom("PURGE".to_string()).as_str()), HttpMethod::Custom("PURGE".to_string()));
}

#[test]
fn version_text_reads_back() {
    for v in [HttpVersion::Http09, HttpVersion::Http10, HttpVersion::Http11] {
        assert_eq!(HttpVersion::try_from_net_str(v.as_net_str()), Ok(v));
        assert_eq!(HttpVersion::try_from_str(v.as_str()), Ok(v));
    }
    assert_eq!(HttpVersion::try_from_net_str("HTTP/2.0"), Err("HTTP/2.0"));
}

#[test]
fn group_text_reads_back() {
    for g in TiiMimeGroup::well_known() {
        assert_eq!(TiiMimeGroup::parse(g.as_str()), Some(g.clone()));
    }
    assert_eq!(TiiMimeGroup::parse("chemical/x-pdb"), Some(TiiMimeGroup::Other("chemical".to_string())));
    assert_eq!(TiiMimeGroup::parse("*/*"), None);
}

#[test]
fn permits_is_reflexive_and_transitive() {
    let specific = TiiAcceptMimeType::Specific(TiiMimeType::TextHtml);
    let group = TiiAcceptMimeType::GroupWildcard(TiiMimeGroup::Text);
    let any = TiiAcceptMimeType::Wildcard;
    for a in [&specific, &group, &any] {
        assert!(a.permits(a));
    }
    assert!(group.permits(&specific));
    assert!(any.permits(&group));
    assert!(any.permits(&specific));
    assert!(!specific.permits(&group));
    assert_eq!(TiiAcceptMimeType::parse("text/*"), Some(group.clone()));
}

#[test]
fn accept_header_is_sorted_by_quality() {
    let l = TiiAcceptQualityMimeType::parse("text/plain;q=0.5, text/html, */*;q=0.1, image/*;q=0.5").unwrap();
    let qs: Vec<u16> = l.iter().map(|a| a.qvalue().as_u16()).collect();
    assert_eq!(qs, vec![1000, 500, 500, 100]);
    assert_eq!(l[0].get_type(), &TiiAcceptMimeType::Specific(TiiMimeType::TextHtml));
    assert_eq!(l[1].get_type(), &TiiAcceptMimeType::Specific(TiiMimeType::TextPlain));
    assert_eq!(l[2].get_type(), &TiiAcceptMimeType::GroupWildcard(TiiMimeGroup::Image));
    assert_eq!(TiiAcceptQualityMimeType::parse("text/html;q=2"), None);
}

#[test]
fn extension_reads_back() {
    assert_eq!(TiiMimeType::from_extension(TiiMimeType::ApplicationPdf.extension()), TiiMimeType::ApplicationPdf);
    assert_eq!(TiiMimeType::from_extension("HTML"), TiiMimeType::TextHtml);
    assert_eq!(TiiMimeType::from_extension(TiiMimeType::ApplicationYaml.extension()), TiiMimeType::ApplicationYaml);
    assert_eq!(TiiMimeType::from_extension(TiiMimeType::Audio3gpp.extension()), TiiMimeType::Video3gpp);
    assert!(!TiiMimeType::Audio3gpp.has_unique_known_extension());
}

#[test]
fn header_text_reads_back() {
    for n in tii::TiiHttpHeaderName::well_known() {
        assert_eq!(tii::TiiHttpHeaderName::from_name(n.to_str()), n);
        assert_eq!(tii::TiiHttpHeaderName::from_name(&n.to_str().to_ascii_uppercase()), n);
    }
    assert_eq!(
        tii::TiiHttpHeaderName::from_name("X-Custom"),
        tii::TiiHttpHeaderName::Custom("x-custom".to_string())
    );
}

#[test]
fn mime_text_reads_back() {
    for m in TiiMimeType::well_known() {
        assert_eq!(TiiMimeType::parse(m.as_str()), Some(m.clone()));
        if m.has_unique_known_extension() {
            assert_eq!(TiiMimeType::from_extension(m.extension()), m);
        }
    }
}

#[test]
fn status_code_reads_back() {
    for code in 100u16..600 {
        if let Some(s) = tii::TiiStatusCode::from_well_known_code(code) {
            assert_eq!(s.code(), code);
            assert_eq!(tii::TiiStatusCode::from_well_known_code(s.code()), Some(s));
        }
    }
    assert_eq!(tii::TiiStatusCode::from_well_known_code(308), Some(tii::TiiStatusCode::PermanentRedirect));
    assert_eq!(tii::TiiStatusCode::from_well_known_code(402), Some(tii::TiiStatusCode::PaymentRequired));
    assert_eq!(tii::TiiStatusCode::from_well_known_code(418), None);
    assert_eq!(tii::TiiStatusCode::from_well_known_code(99), None);
    assert_eq!(tii::TiiStatusCode::from_well_known_code_or_500(999), tii::TiiStatusCode::InternalServerError);
}

#[test]
fn accept_header_value_reads_back() {
    let elements = vec![
        TiiAcceptQualityMimeType::from_mime(TiiMimeType::TextHtml, TiiQValue::from_clamped(500)),
        TiiAcceptQualityMimeType::from_group(TiiMimeGroup::Image, TiiQValue::from_clamped(1000)),
        TiiAcceptQualityMimeType::wildcard(TiiQValue::from_clamped(10)),
        TiiAcceptQualityMimeType::from_mime(TiiMimeType::ApplicationJson, TiiQValue::from_clamped(1000)),
    ];
    let value = TiiAcceptQualityMimeType::elements_to_header_value(&elements);
    assert_eq!(value, "text/html;q=0.5,image/*,*/*;q=0.01,application/json");
    let parsed = TiiAcceptQualityMimeType::parse(&value).unwrap();
    let expected = vec![
        elements[1].clone(),
        elements[3].clone(),
        elements[0].clone(),
        elements[2].clone(),
    ];
    assert_eq!(parsed, expected);
    assert_eq!(TiiAcceptQualityMimeType::parse(&TiiAcceptQualityMimeType::elements_to_header_value(&vec![])), None);
}

#[test]
fn accept_value_with_space_before_quality_does_not_read_back() {
    let parsed = TiiAcceptQualityMimeType::parse("text/html ;q=1").unwrap();
    assert_eq!(parsed[0].get_type(), &TiiAcceptMimeType::Specific(TiiMimeType::Other(TiiMimeGroup::Text, "text/html ".to_string())));
    let again = TiiAcceptQualityMimeType::parse(&TiiAcceptQualityMimeType::elements_to_header_value(&parsed)).unwrap();
    assert_eq!(again[0].get_type(), &TiiAcceptMimeType::Specific(TiiMimeType::TextHtml));
}

#[test]
fn parsed_accept_value_reads_back() {
    let parsed = TiiAcceptQualityMimeType::parse("text/html;q=0.5, image/*, */*;q=0.1, chemical/x-pdb").unwrap();
    let written = TiiAcceptQualityMimeType::elements_to_header_value(&parsed);
    assert_eq!(TiiAcceptQualityMimeType::parse(&written), Some(parsed));
}

#[test]
fn permits_is_inclusion_of_permitted_types() {
    let any = TiiAcceptMimeType::Wildcard;
    let text = TiiAcceptMimeType::GroupWildcard(TiiMimeGroup::Text);
    let html = TiiAcceptMimeType::Specific(TiiMimeType::TextHtml);
    assert!(any.permits(&text) && any.permits(&html) && any.permits(&any));
    assert!(text.permits(&html) && text.permits(&text) && !text.permits(&any));
    assert!(!html.permits(&text) && html.permits(&html) && !html.permits(&any));
    let image = TiiAcceptMimeType::GroupWildcard(TiiMimeGroup::Image);
    assert!(!image.permits(&text) && !image.permits(&html));
}
