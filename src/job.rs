//! Composition of one print job, and of a print-and-cut job: the request
//! parameters, the content hash, and the bytes to transfer.
use crate::catalog::{CanvasSize, ModeType};
use sha1::Digest;
use std::time::Duration;
use vstd::prelude::*;
use vstd::string::StringExecFns;

verus! {

/// Account string the device expects in every print request.
pub const USER_ACCOUNT: &'static str = "000000.00000000000000000000000000000000.0000";

/// Document format code of a JPEG image.
pub const DOCUMENT_FORMAT_JPEG: u32 = 9;

/// Document format code of a cut path file.
pub const DOCUMENT_FORMAT_PLT: u32 = 18;

/// Hash method code of SHA-1.
pub const HASH_METHOD_SHA1: u32 = 1;

/// The character of a decimal digit.
pub open spec fn digit_char(d: nat) -> char {
    seq!['0', '1', '2', '3', '4', '5', '6', '7', '8', '9'][d as int]
}

/// Decimal digits of `n`, without leading zeros.
pub open spec fn decimal_of(n: nat) -> Seq<char>
    decreases n,
{
    if n < 10 {
        seq![digit_char(n)]
    } else {
        decimal_of(n / 10) + seq![digit_char(n % 10)]
    }
}

/// The lower-case character of a hexadecimal digit.
pub open spec fn hex_char(d: nat) -> char {
    seq!['0', '1', '2', '3', '4', '5', '6', '7', '8', '9', 'a', 'b', 'c', 'd', 'e', 'f'][d as int]
}

/// Two lower-case hexadecimal digits per byte, high digit first.
pub open spec fn hex_of(b: Seq<u8>) -> Seq<char>
    decreases b.len(),
{
    if b.len() == 0 {
        Seq::empty()
    } else {
        hex_of(b.drop_last()) + seq![hex_char(b.last() as nat / 16), hex_char(b.last() as nat % 16)]
    }
}

/// The SHA-1 digest of a byte sequence.
pub uninterp spec fn sha1_of(data: Seq<u8>) -> Seq<u8>;

/// Relies on `sha1::Sha1::digest` (the `Digest` trait): the 20-byte SHA-1
/// digest of `data`, which depends on `data` alone.
#[verifier::external_body]
fn sha1_digest(data: &[u8]) -> (r: Vec<u8>)
    ensures
        r@ == sha1_of(data@),
        r@.len() == 20,
{
    sha1::Sha1::digest(data).to_vec()
}

/// Relies on `hex::encode`: two lower-case hexadecimal digits per byte.
#[verifier::external_body]
fn hex_encode(bytes: &[u8]) -> (r: String)
    ensures
        r@ == hex_of(bytes@),
{
    hex::encode(bytes)
}

/// Relies on `ToString::to_string` through `u64`'s `Display`: the decimal
/// digits of `n`.
#[verifier::external_body]
fn decimal_string(n: u64) -> (r: String)
    ensures
        r@ == decimal_of(n as nat),
{
    n.to_string()
}

/// Relies on `SystemTime::elapsed` of `std::time::UNIX_EPOCH`: the time since
/// the epoch, `None` where the clock is set before it.
#[verifier::external_body]
fn elapsed_since_epoch() -> (r: Option<Duration>) {
    std::time::UNIX_EPOCH.elapsed().ok()
}

/// Relies on `Duration::as_millis`: whole milliseconds of `d`.
#[verifier::external_body]
fn duration_millis(d: &Duration) -> (r: u128) {
    d.as_millis()
}

/// Milliseconds since the Unix epoch by the system clock; 0 where the clock is
/// set before the epoch, `u64::MAX` where the count does not fit.
pub fn current_timestamp_millis() -> (r: u64) {
    match elapsed_since_epoch() {
        Some(d) => {
            let ms = duration_millis(&d);
            if ms > u64::MAX as u128 {
                u64::MAX
            } else {
                ms as u64
            }
        },
        None => 0,
    }
}

/// The hash a print request carries for `data`: its SHA-1 digest in
/// lower-case hexadecimal.
pub fn content_hash(data: &[u8]) -> (r: String)
    ensures
        r@ == hex_of(sha1_of(data@)),
{
    let digest = sha1_digest(data);
    hex_encode(digest.as_slice())
}

/// The name a document is sent under: the timestamp, a dot and `ext`.
fn document_name(time_ms: u64, ext: &str) -> (r: String)
    ensures
        r@ == decimal_of(time_ms as nat) + seq!['.'] + ext@,
{
    let mut name = decimal_string(time_ms);
    name.append(".");
    proof {
        reveal_strlit(".");
    }
    name.append(ext);
    name
}

/// Parameters of a `print-job` request.
#[derive(Clone, Debug)]
pub struct PrintJobParams {
    pub media_size: u16,
    pub media_type: u16,
    pub job_type: u16,
    pub channel: u16,
    pub file_size: usize,
    pub document_format: u32,
    pub document_name: String,
    pub hash_method: u32,
    pub hash_value: String,
    pub user_account: String,
    pub link_type: u16,
    pub job_send_time: u64,
    pub copies: usize,
}

/// Parameters of a `cut-job` request.
#[derive(Clone, Debug)]
pub struct CutJobParams {
    pub copies: usize,
    pub media_size: u16,
    pub document_name: String,
    pub file_size: usize,
    pub channel: u16,
    pub media_type: u16,
    pub job_type: u16,
    pub document_format: u32,
    pub job_send_time: u64,
}

/// The request that submits a job: a `print-job`, or for a mode that cuts a
/// `combo-job` holding a `print-job` and then a `cut-job`.
#[derive(Clone, Debug)]
pub enum JobRequest {
    Print(PrintJobParams),
    Combo(PrintJobParams, CutJobParams),
}

/// A job ready to submit: its request, and the bytes to transfer once the
/// device has assigned the job an id.
#[derive(Clone, Debug)]
pub struct PrintJob {
    pub request: JobRequest,
    pub payload: Vec<u8>,
}

/// Whether `p` is the `print-job` of an image for `mode` on `canvas`.
pub open spec fn is_print_params(
    p: PrintJobParams,
    mode: ModeType,
    canvas: CanvasSize,
    image: Seq<u8>,
    time_ms: u64,
    copies: usize,
) -> bool {
    &&& p.media_size == canvas.media_size
    &&& p.media_type == canvas.media_type
    &&& p.job_type == mode.spec_job_type()
    &&& p.channel == mode.spec_channel()
    &&& p.file_size == image.len()
    &&& p.document_format == DOCUMENT_FORMAT_JPEG
    &&& p.document_name@ == decimal_of(time_ms as nat) + seq!['.'] + "jpeg"@
    &&& p.hash_method == HASH_METHOD_SHA1
    &&& p.hash_value@ == hex_of(sha1_of(image))
    &&& p.user_account@ == USER_ACCOUNT@
    &&& p.link_type == mode.spec_link_type()
    &&& p.job_send_time == time_ms / 1000
    &&& p.copies == copies
}

/// Whether `c` is the `cut-job` of a cut path for `mode` on `canvas`.
pub open spec fn is_cut_params(
    c: CutJobParams,
    mode: ModeType,
    canvas: CanvasSize,
    plt: Seq<u8>,
    time_ms: u64,
    copies: usize,
) -> bool {
    &&& c.copies == copies
    &&& c.media_size == canvas.media_size
    &&& c.document_name@ == decimal_of(time_ms as nat) + seq!['.'] + "plt"@
    &&& c.file_size == plt.len()
    &&& c.channel == mode.spec_channel()
    &&& c.media_type == canvas.media_type
    &&& c.job_type == mode.spec_job_type()
    &&& c.document_format == DOCUMENT_FORMAT_PLT
    &&& c.job_send_time == time_ms / 1000
}

/// Composes the job that prints `image` (an encoded JPEG) in `mode` on
/// `canvas`, with `plt` the cut path where the mode cuts. The transferred
/// bytes are the cut path followed by the image where the mode cuts, else
/// the image alone; the hash covers the image alone.
pub fn build_print_job(
    mode: ModeType,
    canvas: &CanvasSize,
    image: &[u8],
    plt: &[u8],
    time_ms: u64,
    copies: usize,
) -> (r: PrintJob)
    ensures
        mode.spec_has_cutting() ==> r.payload@ == plt@ + image@,
        !mode.spec_has_cutting() ==> r.payload@ == image@,
        match r.request {
            JobRequest::Print(p) => !mode.spec_has_cutting() && is_print_params(
                p,
                mode,
                *canvas,
                image@,
                time_ms,
                copies,
            ),
            JobRequest::Combo(p, c) => mode.spec_has_cutting() && is_print_params(
                p,
                mode,
                *canvas,
                image@,
                time_ms,
                copies,
            ) && is_cut_params(c, mode, *canvas, plt@, time_ms, copies),
        },
{
    let print = PrintJobParams {
        media_size: canvas.media_size,
        media_type: canvas.media_type,
        job_type: mode.job_type(),
        channel: mode.channel(),
        file_size: image.len(),
        document_format: DOCUMENT_FORMAT_JPEG,
        document_name: document_name(time_ms, "jpeg"),
        hash_method: HASH_METHOD_SHA1,
        hash_value: content_hash(image),
        user_account: USER_ACCOUNT.to_string(),
        link_type: mode.link_type(),
        job_send_time: time_ms / 1000,
        copies,
    };
    if mode.has_cutting() {
        let cut = CutJobParams {
            copies,
            media_size: canvas.media_size,
            document_name: document_name(time_ms, "plt"),
            file_size: plt.len(),
            channel: mode.channel(),
            media_type: canvas.media_type,
            job_type: mode.job_type(),
            document_format: DOCUMENT_FORMAT_PLT,
            job_send_time: time_ms / 1000,
        };
        let mut payload: Vec<u8> = Vec::new();
        crate::protocol::push_bytes(&mut payload, plt);
        crate::protocol::push_bytes(&mut payload, image);
        PrintJob { request: JobRequest::Combo(print, cut), payload }
    } else {
        let mut payload: Vec<u8> = Vec::new();
        crate::protocol::push_bytes(&mut payload, image);
        PrintJob { request: JobRequest::Print(print), payload }
    }
}

} // verus!
