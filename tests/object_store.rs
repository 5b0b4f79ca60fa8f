use bakta_web_backend::s3::{
    is_signable, object_url, sign_url, strip_scheme, unsigned_url, HttpMethod, InputType,
    OutputKind, S3Handler, SignError, DOWNLOAD_VALIDITY, UPLOAD_VALIDITY,
};

fn handler(endpoint: &str) -> S3Handler {
    S3Handler::new(
        "access".to_string(),
        "secret-key".to_string(),
        "bucket".to_string(),
        endpoint.to_string(),
    )
}

#[test]
fn ssl_flag_follows_http_scheme() {
    assert!(handler("http://minio:9000").is_ssl);
    assert!(!handler("https://s3.example.org").is_ssl);
    assert!(!handler("s3.example.org").is_ssl);
}

#[test]
fn object_urls() {
    assert_eq!(strip_scheme("https://a.b"), "a.b");
    assert_eq!(strip_scheme("http://a.b"), "a.b");
    assert_eq!(strip_scheme("a.b"), "a.b");
    assert_eq!(object_url(true, "bk", "http://host", "k/x"), "https://bk.host/k/x");
    assert_eq!(object_url(false, "bk", "host", "k"), "http://bk.host/k");
}

#[test]
fn input_names_and_keys() {
    assert_eq!(InputType::Fasta.to_str(), "fastadata.fasta");
    assert_eq!(InputType::Prodigal.to_str(), "prodigal.tf");
    assert_eq!(InputType::RepliconsTSV.to_str(), "replicons.tsv");
    assert_eq!(S3Handler::upload_key("j", InputType::Prodigal), "jobs/j/inputs/prodigal.tf");
    assert_eq!(S3Handler::download_key("j", "gff"), "jobs/j/results/result.gff");
}

#[test]
fn upload_url_is_presigned() {
    let h = handler("s3.example.org");
    let signed = h.sign_upload_url("job-1", InputType::Fasta).unwrap();
    assert_eq!(signed.method, HttpMethod::Put);
    let url = signed.url;
    assert!(url.starts_with("http://bucket.s3.example.org/jobs/job-1/inputs/fastadata.fasta?"));
    assert!(url.contains("X-Amz-Expires=10000"));
    assert!(url.contains("X-Amz-Signature="));
    let files = h.sign_download_urls("job-1").unwrap();
    assert!(files.gbff.url.contains("X-Amz-Expires=5184000"));
    assert_eq!(files.gbff.method, HttpMethod::Get);
    assert!(files.faa_hypothetical.url.contains("result.hypotheticals.faa?"));
}

#[test]
fn multipart_urls() {
    let missing = sign_url(
        HttpMethod::Put, "a", "b", true, true, 3, None, "bk", "k", "host", 60,
    );
    assert!(matches!(missing, Err(SignError::MissingUploadId)));
    let part = sign_url(
        HttpMethod::Put, "a", "b", true, true, 3, Some("up".to_string()), "bk", "k", "host", 60,
    )
    .unwrap();
    assert_eq!(part.method, HttpMethod::Put);
    assert!(part.url.starts_with("https://bk.host/k?"));
    assert!(part.url.contains("partNumber=3"));
    assert!(part.url.contains("uploadId=up"));
    let bad = sign_url(HttpMethod::Get, "a", "b", false, false, 0, None, "bk", "k", "ho st", 60);
    assert!(matches!(bad, Err(SignError::InvalidUrl)));
}

#[test]
fn unsigned_urls() {
    assert_eq!(
        unsigned_url(true, true, -2, Some("u".to_string()), "bk", "k", "https://h").unwrap(),
        "https://bk.h/k?partNumber=-2&uploadId=u"
    );
    assert_eq!(unsigned_url(false, false, 0, None, "bk", "k", "h").unwrap(), "http://bk.h/k");
    assert_eq!(
        unsigned_url(false, true, 1, None, "bk", "k", "h"),
        Err(SignError::MissingUploadId)
    );
}

#[test]
fn requests_handed_to_the_signer() {
    let h = handler("https://s3.example.org");
    let (m, url, secs) = h.download_request("j", OutputKind::FaaHypothetical);
    assert_eq!(m, HttpMethod::Get);
    assert_eq!(url, "http://bucket.s3.example.org/jobs/j/results/result.hypotheticals.faa");
    assert_eq!(secs, DOWNLOAD_VALIDITY);
    assert_eq!(OutputKind::Gff3.suffix(), "gff");
    let (m, url, secs) = h.upload_request("j", InputType::RepliconsTSV);
    assert_eq!(m, HttpMethod::Put);
    assert_eq!(url, "http://bucket.s3.example.org/jobs/j/inputs/replicons.tsv");
    assert_eq!(secs, UPLOAD_VALIDITY);
}

#[test]
fn unsignable_urls_are_refused_before_signing() {
    assert!(is_signable("https://bk.host/jobs/a-b/x.y"));
    assert!(!is_signable("https://b{k.host/k"));
    assert!(!is_signable("https://bk.host/k\"x"));
    assert!(!is_signable("ftp://bk.host/k"));
    assert!(!is_signable(&format!("https://bk.host/{}", "a".repeat(9000))));
    let h = S3Handler::new(
        "access".to_string(),
        "secret-key".to_string(),
        "b{ucket".to_string(),
        "s3.example.org".to_string(),
    );
    assert!(matches!(h.sign_upload_url("j", InputType::Fasta), Err(SignError::InvalidUrl)));
    assert!(matches!(h.sign_download_urls("j"), Err(SignError::InvalidUrl)));
    let quoted = handler("s3.ex\"ample.org");
    assert!(matches!(quoted.sign_download_urls("j"), Err(SignError::InvalidUrl)));
}

#[test]
fn signed_url_carries_validity_after_base() {
    let h = handler("s3.example.org");
    let url = h.sign_upload_url("j", InputType::Prodigal).unwrap().url;
    assert!(url.starts_with("http://bucket.s3.example.org/jobs/j/inputs/prodigal.tf?"));
    assert!(url.contains("X-Amz-Expires=10000&X-Amz-Signature="));
}
