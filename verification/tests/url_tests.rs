use nextjs_setup::url::extract_vercel_url;

#[test]
fn url_extracted_up_to_first_whitespace() {
    let out = "Deployed to https://my-app.vercel.app done";
    assert_eq!(extract_vercel_url(out), Some("https://my-app.vercel.app".to_string()));
}

#[test]
fn url_extracted_when_line_ends_at_url() {
    let out = "building...\nReady https://my-app.vercel.app";
    assert_eq!(extract_vercel_url(out), Some("https://my-app.vercel.app".to_string()));
}

#[test]
fn no_match_yields_none() {
    let out = "Deploying...\nDone. Inspect: https://vercel.com/acme/thing\nBye";
    assert_eq!(extract_vercel_url(out), None);
}

#[test]
fn suffix_without_scheme_yields_none() {
    let out = "see my-app.vercel.app for details";
    assert_eq!(extract_vercel_url(out), None);
}

#[test]
fn first_matching_line_wins() {
    let out = "https://a.vercel.app x\nhttps://b.vercel.app y";
    assert_eq!(extract_vercel_url(out), Some("https://a.vercel.app".to_string()));
}

#[test]
fn scheme_and_suffix_must_share_a_line() {
    let out = "https://example.com\nname.vercel.app";
    assert_eq!(extract_vercel_url(out), None);
}

#[test]
fn carriage_return_is_stripped_from_the_line_end() {
    let out = "Deployed to https://my-app.vercel.app\r\nnext line";
    assert_eq!(extract_vercel_url(out), Some("https://my-app.vercel.app".to_string()));
}

#[test]
fn empty_output_yields_none() {
    assert_eq!(extract_vercel_url(""), None);
}
