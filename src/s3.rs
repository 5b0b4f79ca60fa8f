use crate::logs::occurs_in;
use crate::text::{chars_of, decimal, signed_decimal, starts_with, strip_prefix};
use vstd::prelude::*;

verus! {

/// `anyhow::Error`, the error `url` parsing and `reqsign` signing report
/// through; opaque.
#[verifier::external_type_specification]
#[verifier::external_body]
pub struct ExAnyhowError(anyhow::Error);

/// HTTP method a presigned URL is valid for.
#[derive(Clone, Copy, Debug, PartialEq, Eq, Structural)]
pub enum HttpMethod {
    Get,
    Put,
}

/// Why a URL could not be presigned.
#[derive(Clone, Copy, Debug, PartialEq, Eq, Structural)]
pub enum SignError {
    /// A multipart part was asked for without an upload id.
    MissingUploadId,
    /// The object URL holds characters the signer cannot take, or `url`
    /// refuses it.
    InvalidUrl,
}

/// Credentials and location of the object store.
pub struct S3Handler {
    pub access_key: String,
    pub secret_key: String,
    pub bucket: String,
    pub endpoint: String,
    pub is_ssl: bool,
}

/// Input files a job uploads.
#[derive(Clone, Copy, Debug, PartialEq, Eq, Structural)]
pub enum InputType {
    Fasta,
    Prodigal,
    RepliconsTSV,
}

pub open spec fn input_file_name(t: InputType) -> Seq<char> {
    match t {
        InputType::Fasta => "fastadata.fasta"@,
        InputType::Prodigal => "prodigal.tf"@,
        InputType::RepliconsTSV => "replicons.tsv"@,
    }
}

impl InputType {
    /// File name of the input in the job's input folder.
    pub fn to_str(&self) -> (r: &'static str)
        ensures
            r@ == input_file_name(*self),
    {
        match self {
            InputType::Fasta => "fastadata.fasta",
            InputType::Prodigal => "prodigal.tf",
            InputType::RepliconsTSV => "replicons.tsv",
        }
    }
}

/// Result files of a job, one per output format.
#[derive(Clone, Copy, Debug, PartialEq, Eq, Structural)]
pub enum OutputKind {
    Embl,
    Faa,
    FaaHypothetical,
    Ffn,
    Fna,
    Gbff,
    Gff3,
    Json,
    Tsv,
    TsvHypothetical,
}

/// File suffix of an output kind.
pub open spec fn suffix_of(k: OutputKind) -> Seq<char> {
    match k {
        OutputKind::Embl => "embl"@,
        OutputKind::Faa => "faa"@,
        OutputKind::FaaHypothetical => "hypotheticals.faa"@,
        OutputKind::Ffn => "ffn"@,
        OutputKind::Fna => "fna"@,
        OutputKind::Gbff => "gbff"@,
        OutputKind::Gff3 => "gff"@,
        OutputKind::Json => "json"@,
        OutputKind::Tsv => "tsv"@,
        OutputKind::TsvHypothetical => "hypotheticals.tsv"@,
    }
}

impl OutputKind {
    /// File suffix of the result file of this kind.
    pub fn suffix(&self) -> (r: &'static str)
        ensures
            r@ == suffix_of(*self),
    {
        match self {
            OutputKind::Embl => "embl",
            OutputKind::Faa => "faa",
            OutputKind::FaaHypothetical => "hypotheticals.faa",
            OutputKind::Ffn => "ffn",
            OutputKind::Fna => "fna",
            OutputKind::Gbff => "gbff",
            OutputKind::Gff3 => "gff",
            OutputKind::Json => "json",
            OutputKind::Tsv => "tsv",
            OutputKind::TsvHypothetical => "hypotheticals.tsv",
        }
    }
}

/// The field of `f` that holds the file of kind `k`.
pub open spec fn file_of(f: ResultFiles, k: OutputKind) -> PresignedUrl {
    match k {
        OutputKind::Embl => f.embl,
        OutputKind::Faa => f.faa,
        OutputKind::FaaHypothetical => f.faa_hypothetical,
        OutputKind::Ffn => f.ffn,
        OutputKind::Fna => f.fna,
        OutputKind::Gbff => f.gbff,
        OutputKind::Gff3 => f.gff3,
        OutputKind::Json => f.json,
        OutputKind::Tsv => f.tsv,
        OutputKind::TsvHypothetical => f.tsv_hypothetical,
    }
}

/// A presigned URL with the HTTP method the signer signed it for.
#[derive(Debug)]
pub struct PresignedUrl {
    pub method: HttpMethod,
    pub url: String,
}

/// Presigned download URLs of a job's result files, one per output kind.
pub struct ResultFiles {
    pub embl: PresignedUrl,
    pub faa: PresignedUrl,
    pub faa_hypothetical: PresignedUrl,
    pub ffn: PresignedUrl,
    pub fna: PresignedUrl,
    pub gbff: PresignedUrl,
    pub gff3: PresignedUrl,
    pub json: PresignedUrl,
    pub tsv: PresignedUrl,
    pub tsv_hypothetical: PresignedUrl,
}

/// Object key of an uploaded input of job `job_id`.
pub open spec fn upload_key(job_id: Seq<char>, t: InputType) -> Seq<char> {
    "jobs/"@ + job_id + "/inputs/"@ + input_file_name(t)
}

/// Object key of the result of job `job_id` with file suffix `format`.
pub open spec fn download_key(job_id: Seq<char>, format: Seq<char>) -> Seq<char> {
    "jobs/"@ + job_id + "/results/result."@ + format
}

/// `endpoint` without a leading `https://` or `http://`.
pub open spec fn bare_endpoint(endpoint: Seq<char>) -> Seq<char> {
    if starts_with(endpoint, "https://"@) {
        endpoint.subrange(8, endpoint.len() as int)
    } else if starts_with(endpoint, "http://"@) {
        endpoint.subrange(7, endpoint.len() as int)
    } else {
        endpoint
    }
}

/// The virtual-host style URL of object `key` in `bucket`.
pub open spec fn object_url_text(ssl: bool, bucket: Seq<char>, endpoint: Seq<char>, key: Seq<char>) -> Seq<
    char,
> {
    (if ssl {
        "https://"@
    } else {
        "http://"@
    }) + bucket + "."@ + bare_endpoint(endpoint) + "/"@ + key
}

/// The object URL of one part of a multipart upload.
pub open spec fn part_url_text(
    ssl: bool,
    bucket: Seq<char>,
    endpoint: Seq<char>,
    key: Seq<char>,
    part_number: int,
    upload_id: Seq<char>,
) -> Seq<char> {
    object_url_text(ssl, bucket, endpoint, key) + "?partNumber="@ + signed_decimal(part_number)
        + "&uploadId="@ + upload_id
}

/// `endpoint` without a leading `https://` or `http://`.
pub fn strip_scheme(endpoint: &str) -> (r: String)
    ensures
        r@ == bare_endpoint(endpoint@),
{
    proof {
        reveal_strlit("https://");
        reveal_strlit("http://");
    }
    match strip_prefix(endpoint, "https://") {
        Some(s) => s,
        None => match strip_prefix(endpoint, "http://") {
            Some(s) => s,
            None => String::from_str(endpoint),
        },
    }
}

/// The virtual-host style URL of object `key` in `bucket`.
pub fn object_url(ssl: bool, bucket: &str, endpoint: &str, key: &str) -> (r: String)
    ensures
        r@ == object_url_text(ssl, bucket@, endpoint@, key@),
{
    let protocol = if ssl {
        "https://"
    } else {
        "http://"
    };
    let host = strip_scheme(endpoint);
    String::from_str(protocol).concat(bucket).concat(".").concat(host.as_str()).concat("/").concat(
        key,
    )
}

/// Characters an object URL may hold here: ASCII letters and digits and
/// `-._~/:?=&`. `url` leaves them as they are, and `http::Uri` takes them in
/// every part of a URL.
pub open spec fn url_char(c: char) -> bool {
    ('0' <= c && c <= '9') || ('a' <= c && c <= 'z') || ('A' <= c && c <= 'Z') || c == '-' || c
        == '.' || c == '_' || c == '~' || c == '/' || c == ':' || c == '?' || c == '=' || c == '&'
}

/// Longest URL text handed to the signer (`http::Uri` takes up to 65534
/// bytes).
pub const MAX_URL_LEN: usize = 8192;

/// A URL text the signer can take without failing on it: an `http` or
/// `https` URL of `url_char`s, at most `MAX_URL_LEN` long.
pub open spec fn signable_text(s: Seq<char>) -> bool {
    &&& starts_with(s, "https://"@) || starts_with(s, "http://"@)
    &&& s.len() <= MAX_URL_LEN
    &&& forall|i: int| 0 <= i < s.len() ==> url_char(#[trigger] s[i])
}

/// The serialisation of the URL that `url::Url::parse` reads from `s`, up
/// to and without its query and fragment; `None` where it refuses `s`.
pub uninterp spec fn parsed_url_base(s: Seq<char>) -> Option<Seq<char>>;

/// `s` presigns the URL `text` for `seconds`: it is the parsed URL with the
/// signing query, whose validity parameter is `seconds`.
pub open spec fn presigned_for(s: Seq<char>, text: Seq<char>, seconds: u64) -> bool {
    &&& parsed_url_base(text) matches Some(b) && starts_with(s, b + seq!['?'])
    &&& occurs_in(s, "X-Amz-Expires="@ + decimal(seconds as nat) + "&"@)
}

/// `p` presigns `text` for `method` and `seconds`.
pub open spec fn presigned(p: PresignedUrl, method: HttpMethod, text: Seq<char>, seconds: u64) -> bool {
    p.method == method && presigned_for(p.url@, text, seconds)
}

/// The signer takes `text`.
pub open spec fn presign_accepts(text: Seq<char>) -> bool {
    signable_text(text) && parsed_url_base(text) is Some
}

/// Service name the object store signs for.
pub const SIGNING_SERVICE: &'static str = "s3";

/// Region the object store signs for.
pub const SIGNING_REGION: &'static str = "RegionOne";

/// Relies on `url::Url::parse` and `reqsign::AwsV4Signer::sign_query` on a
/// `reqwest::Request` with `method`, with the credential
/// (`access_key`, `secret_key`), valid for `seconds`; the signed request's
/// URL is returned with the method of the signed request, read back from
/// it. The signer re-reads the URL as an `http::Uri` and
/// panics where that refuses it: `signable_text` leaves that out. On such a
/// text, signing fails only where parsing does, and replaces the query of
/// the parsed URL with the sorted, encoded query parameters, among them
/// `X-Amz-Expires` with `seconds`, which `X-Amz-SignedHeaders` always
/// follows. The signature depends on the current time.
#[verifier::external_body]
fn presign_query(
    method: HttpMethod,
    text: &str,
    seconds: u64,
    access_key: &str,
    secret_key: &str,
    service: &str,
    region: &str,
) -> (r: Result<PresignedUrl, anyhow::Error>)
    requires
        signable_text(text@),
    ensures
        r is Ok <==> parsed_url_base(text@) is Some,
        r matches Ok(p) ==> presigned(p, method, text@, seconds),
{
    let url = url::Url::parse(text)?;
    let method = match method {
        HttpMethod::Get => reqwest::Method::GET,
        HttpMethod::Put => reqwest::Method::PUT,
    };
    let mut req = reqwest::Request::new(method, url);
    let mut cred = reqsign::AwsCredential::default();
    (cred.access_key_id, cred.secret_access_key) = (access_key.to_string(), secret_key.to_string());
    let expire = std::time::Duration::from_secs(seconds);
    reqsign::AwsV4Signer::new(service, region).sign_query(&mut req, expire, &cred)?;
    let signed = if req.method() == reqwest::Method::GET { HttpMethod::Get } else { HttpMethod::Put };
    Ok(PresignedUrl { method: signed, url: req.url().to_string() })
}

fn is_url_char(c: char) -> (r: bool)
    ensures
        r == url_char(c),
{
    ('0' <= c && c <= '9') || ('a' <= c && c <= 'z') || ('A' <= c && c <= 'Z') || c == '-' || c
        == '.' || c == '_' || c == '~' || c == '/' || c == ':' || c == '?' || c == '=' || c == '&'
}

/// Whether the signer can take `text` without failing on it.
pub fn is_signable(text: &str) -> (r: bool)
    ensures
        r == signable_text(text@),
{
    proof {
        reveal_strlit("https://");
        reveal_strlit("http://");
    }
    let scheme_ok = strip_prefix(text, "https://").is_some() || strip_prefix(text, "http://").is_some();
    let chars = chars_of(text);
    if !scheme_ok || chars.len() > MAX_URL_LEN {
        return false;
    }
    let mut i: usize = 0;
    while i < chars.len()
        invariant
            chars@ == text@,
            i <= chars.len(),
            forall|j: int| 0 <= j < i ==> url_char(#[trigger] chars@[j]),
        decreases chars.len() - i,
    {
        if !is_url_char(chars[i]) {
            return false;
        }
        i = i + 1;
    }
    true
}

/// Presigns the URL `text` for `method`, valid for `seconds`. A text the
/// signer cannot take is refused before it reaches the signer.
pub fn presign(method: HttpMethod, access_key: &str, secret_key: &str, text: &str, seconds: u64) -> (r:
    Result<PresignedUrl, SignError>)
    ensures
        r is Ok <==> presign_accepts(text@),
        r matches Ok(p) ==> presigned(p, method, text@, seconds),
        r matches Err(e) ==> e == SignError::InvalidUrl,
{
    if !is_signable(text) {
        return Err(SignError::InvalidUrl);
    }
    match presign_query(method, text, seconds, access_key, secret_key, SIGNING_SERVICE, SIGNING_REGION) {
        Ok(p) => Ok(p),
        Err(_) => Err(SignError::InvalidUrl),
    }
}

/// The URL text to presign for an object, or for one part of a multipart
/// upload.
pub open spec fn request_text(
    ssl: bool,
    multipart: bool,
    part_number: int,
    upload_id: Seq<char>,
    bucket: Seq<char>,
    key: Seq<char>,
    endpoint: Seq<char>,
) -> Seq<char> {
    if multipart {
        part_url_text(ssl, bucket, endpoint, key, part_number, upload_id)
    } else {
        object_url_text(ssl, bucket, endpoint, key)
    }
}

/// The URL to presign: the object URL, or for a multipart part the object
/// URL with its part number and upload id; a part without an upload id is
/// refused.
pub fn unsigned_url(
    ssl: bool,
    multipart: bool,
    part_number: i32,
    upload_id: Option<String>,
    bucket: &str,
    key: &str,
    endpoint: &str,
) -> (r: Result<String, SignError>)
    ensures
        !multipart ==> (r matches Ok(u) && u@ == object_url_text(ssl, bucket@, endpoint@, key@)),
        multipart ==> (match upload_id {
            Some(id) => r matches Ok(u) && u@ == part_url_text(
                ssl,
                bucket@,
                endpoint@,
                key@,
                part_number as int,
                id@,
            ),
            None => r == Err::<String, SignError>(SignError::MissingUploadId),
        }),
{
    let base = object_url(ssl, bucket, endpoint, key);
    if multipart {
        match upload_id {
            Some(id) => Ok(
                base.concat("?partNumber=").concat(
                    crate::text::i32_to_decimal(part_number).as_str(),
                ).concat("&uploadId=").concat(id.as_str()),
            ),
            None => Err(SignError::MissingUploadId),
        }
    } else {
        Ok(base)
    }
}

/// Builds the URL to presign (see `unsigned_url`) and presigns it for
/// `method`, valid for `duration` seconds.
pub fn sign_url(
    method: HttpMethod,
    access_key: &str,
    secret_key: &str,
    ssl: bool,
    multipart: bool,
    part_number: i32,
    upload_id: Option<String>,
    bucket: &str,
    key: &str,
    endpoint: &str,
    duration: u64,
) -> (r: Result<PresignedUrl, SignError>)
    ensures
        multipart && upload_id is None ==> r == Err::<PresignedUrl, SignError>(SignError::MissingUploadId),
        !(multipart && upload_id is None) ==> ({
            let text = request_text(
                ssl,
                multipart,
                part_number as int,
                match upload_id {
                    Some(u) => u@,
                    None => Seq::empty(),
                },
                bucket@,
                key@,
                endpoint@,
            );
            &&& r is Ok <==> presign_accepts(text)
            &&& r matches Ok(p) ==> presigned(p, method, text, duration)
            &&& r matches Err(e) ==> e == SignError::InvalidUrl
        }),
{
    let text = unsigned_url(ssl, multipart, part_number, upload_id, bucket, key, endpoint)?;
    presign(method, access_key, secret_key, text.as_str(), duration)
}

/// Validity of an upload URL: 10000 seconds.
pub const UPLOAD_VALIDITY: u64 = 10000;

/// Validity of a download URL: 60 days.
pub const DOWNLOAD_VALIDITY: u64 = 5184000;

impl S3Handler {
    /// The object URL of input `t` of job `job_id`.
    pub open spec fn upload_text(&self, job_id: Seq<char>, t: InputType) -> Seq<char> {
        object_url_text(self.is_ssl, self.bucket@, self.endpoint@, upload_key(job_id, t))
    }

    /// The object URL of the result file of kind `k` of job `job_id`.
    pub open spec fn download_text(&self, job_id: Seq<char>, k: OutputKind) -> Seq<char> {
        object_url_text(self.is_ssl, self.bucket@, self.endpoint@, download_key(job_id, suffix_of(k)))
    }

    /// The signer takes the object URL of every result file of `job_id`.
    pub open spec fn bundle_signable(&self, job_id: Seq<char>) -> bool {
        forall|k: OutputKind| presign_accepts(#[trigger] self.download_text(job_id, k))
    }

    /// Every field of `f` presigns the matching result file of `job_id` for
    /// the download validity.
    pub open spec fn bundle_for(&self, f: ResultFiles, job_id: Seq<char>) -> bool {
        forall|k: OutputKind|
            presigned(
                #[trigger] file_of(f, k),
                HttpMethod::Get,
                self.download_text(job_id, k),
                DOWNLOAD_VALIDITY,
            )
    }

    /// A handler for `bucket` at `endpoint`; `is_ssl` is set when the
    /// endpoint is written with an `http://` scheme.
    pub fn new(access_key: String, secret_key: String, bucket: String, endpoint: String) -> (r:
        Self)
        ensures
            r.access_key == access_key,
            r.secret_key == secret_key,
            r.bucket == bucket,
            r.endpoint == endpoint,
            r.is_ssl == starts_with(endpoint@, "http://"@),
    {
        let ssl = strip_prefix(endpoint.as_str(), "http://").is_some();
        S3Handler { access_key, secret_key, bucket, endpoint, is_ssl: ssl }
    }

    /// The object key of input `input_type` of job `job_id`.
    pub fn upload_key(job_id: &str, input_type: InputType) -> (r: String)
        ensures
            r@ == upload_key(job_id@, input_type),
    {
        String::from_str("jobs/").concat(job_id).concat("/inputs/").concat(input_type.to_str())
    }

    /// The object key of the result of job `job_id` with suffix `format`.
    pub fn download_key(job_id: &str, format: &str) -> (r: String)
        ensures
            r@ == download_key(job_id@, format@),
    {
        String::from_str("jobs/").concat(job_id).concat("/results/result.").concat(format)
    }

    /// What is signed to upload input `input_type` of job `job_id`: a PUT of
    /// its object URL, valid for `UPLOAD_VALIDITY` seconds.
    pub fn upload_request(&self, job_id: &str, input_type: InputType) -> (r: (HttpMethod, String, u64))
        ensures
            r.0 == HttpMethod::Put,
            r.1@ == self.upload_text(job_id@, input_type),
            r.2 == UPLOAD_VALIDITY,
    {
        let key = S3Handler::upload_key(job_id, input_type);
        let url = object_url(self.is_ssl, self.bucket.as_str(), self.endpoint.as_str(), key.as_str());
        (HttpMethod::Put, url, UPLOAD_VALIDITY)
    }

    /// What is signed to download the result file of kind `kind` of job
    /// `job_id`: a GET of its object URL, valid for `DOWNLOAD_VALIDITY`
    /// seconds.
    pub fn download_request(&self, job_id: &str, kind: OutputKind) -> (r: (HttpMethod, String, u64))
        ensures
            r.0 == HttpMethod::Get,
            r.1@ == self.download_text(job_id@, kind),
            r.2 == DOWNLOAD_VALIDITY,
    {
        let key = S3Handler::download_key(job_id, kind.suffix());
        let url = object_url(self.is_ssl, self.bucket.as_str(), self.endpoint.as_str(), key.as_str());
        (HttpMethod::Get, url, DOWNLOAD_VALIDITY)
    }

    /// A write-only URL for uploading input `input_type` of job `job_id`,
    /// valid for 10000 seconds.
    pub fn sign_upload_url(&self, job_id: &str, input_type: InputType) -> (r: Result<
        PresignedUrl,
        SignError,
    >)
        ensures
            r is Ok <==> presign_accepts(self.upload_text(job_id@, input_type)),
            r matches Ok(p) ==> presigned(
                p,
                HttpMethod::Put,
                self.upload_text(job_id@, input_type),
                UPLOAD_VALIDITY,
            ),
            r matches Err(e) ==> e == SignError::InvalidUrl,
    {
        let (method, url, seconds) = self.upload_request(job_id, input_type);
        presign(method, self.access_key.as_str(), self.secret_key.as_str(), url.as_str(), seconds)
    }

    fn sign_download(&self, job_id: &str, kind: OutputKind) -> (r: Result<PresignedUrl, SignError>)
        ensures
            r is Ok <==> presign_accepts(self.download_text(job_id@, kind)),
            r matches Ok(p) ==> presigned(p, HttpMethod::Get, self.download_text(job_id@, kind), DOWNLOAD_VALIDITY),
            r matches Err(e) ==> e == SignError::InvalidUrl,
    {
        let (method, url, seconds) = self.download_request(job_id, kind);
        presign(method, self.access_key.as_str(), self.secret_key.as_str(), url.as_str(), seconds)
    }

    /// Read-only URLs, valid for 60 days, for every result file of job
    /// `job_id`: each field presigns a GET of that file's object URL. It
    /// succeeds exactly when the signer takes every one of those URLs.
    pub fn sign_download_urls(&self, job_id: &str) -> (r: Result<ResultFiles, SignError>)
        ensures
            r is Ok <==> self.bundle_signable(job_id@),
            r matches Ok(f) ==> self.bundle_for(f, job_id@),
            r matches Err(e) ==> e == SignError::InvalidUrl,
    {
        let embl = self.sign_download(job_id, OutputKind::Embl)?;
        let faa = self.sign_download(job_id, OutputKind::Faa)?;
        let faa_hypothetical = self.sign_download(job_id, OutputKind::FaaHypothetical)?;
        let ffn = self.sign_download(job_id, OutputKind::Ffn)?;
        let fna = self.sign_download(job_id, OutputKind::Fna)?;
        let gbff = self.sign_download(job_id, OutputKind::Gbff)?;
        let gff3 = self.sign_download(job_id, OutputKind::Gff3)?;
        let json = self.sign_download(job_id, OutputKind::Json)?;
        let tsv = self.sign_download(job_id, OutputKind::Tsv)?;
        let tsv_hypothetical = self.sign_download(job_id, OutputKind::TsvHypothetical)?;
        let f = ResultFiles {
            embl,
            faa,
            faa_hypothetical,
            ffn,
            fna,
            gbff,
            gff3,
            json,
            tsv,
            tsv_hypothetical,
        };
        assert forall|k: OutputKind| presign_accepts(#[trigger] self.download_text(job_id@, k)) by {}
        assert forall|k: OutputKind|
            presigned(
                #[trigger] file_of(f, k),
                HttpMethod::Get,
                self.download_text(job_id@, k),
                DOWNLOAD_VALIDITY,
            ) by {}
        Ok(f)
    }
}

} // verus!
