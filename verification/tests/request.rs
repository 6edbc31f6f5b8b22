use krtld::request::build_lookup_url;

#[test]
fn plain_key_builds_the_exact_lookup_url() {
    let url = build_lookup_url("mykey", "abc").unwrap();
    assert_eq!(
        url,
        "http://apis.data.go.kr/B551505/whois/domain_name?answer=json&serviceKey=mykey&query=abc.kr"
    );
}

#[test]
fn key_needing_encoding_is_percent_encoded() {
    let url = build_lookup_url("a b&c", "xyz").unwrap();
    assert_eq!(
        url,
        "http://apis.data.go.kr/B551505/whois/domain_name?answer=json&serviceKey=a+b%26c&query=xyz.kr"
    );
}

#[test]
fn every_candidate_queries_its_own_kr_name() {
    let url = build_lookup_url("k", "zzz").unwrap();
    assert!(url.ends_with("&query=zzz.kr"));
}
