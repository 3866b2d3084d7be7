//! Model management structures and helpers.

use vstd::prelude::*;

use crate::chat::ChatMessage;

verus! {

/// Detailed technical information about a model.
#[derive(Debug, Clone)]
pub struct ModelDetails {
    /// Model family.
    pub family: String,
    /// Model file format.
    pub format: String,
    /// Parameter count class.
    pub parameter_size: String,
    /// Quantization level.
    pub quantization_level: String,
    /// Families this model belongs to.
    pub families: Option<Vec<String>>,
    /// Parent model if this is a variant.
    pub parent_model: Option<String>,
}

/// Information about a single installed model.
#[derive(Debug, Clone)]
pub struct Model {
    /// Model name.
    pub name: String,
    /// Model size in bytes.
    pub size: u64,
    /// Digest of the model.
    pub digest: String,
    /// When the model was last modified, as seconds since the Unix
    /// epoch.
    pub modified_at: Option<i64>,
    /// Model details.
    pub details: Option<ModelDetails>,
}

/// List of installed models.
#[derive(Debug, Clone)]
pub struct ModelList {
    /// Available models.
    pub models: Vec<Model>,
}

/// Detailed model information.
#[derive(Debug, Clone)]
pub struct ModelInfo {
    /// License information.
    pub license: Option<String>,
    /// Modelfile content.
    pub modelfile: Option<String>,
    /// Model parameters.
    pub parameters: Option<String>,
    /// Template used by the model.
    pub template: Option<String>,
    /// System message.
    pub system: Option<String>,
    /// Model details.
    pub details: Option<ModelDetails>,
    /// Conversation examples.
    pub messages: Option<Vec<ChatMessage>>,
}

/// Information about a running model.
#[derive(Debug, Clone)]
pub struct RunningModel {
    /// Model name.
    pub name: String,
    /// Model size in bytes.
    pub size: u64,
    /// Digest of the model.
    pub digest: String,
    /// Model details.
    pub details: Option<ModelDetails>,
    /// When the model leaves memory, as seconds since the Unix epoch.
    pub expires_at: Option<i64>,
    /// Size in video memory.
    pub size_vram: Option<u64>,
}

/// List of running models.
#[derive(Debug, Clone)]
pub struct RunningModels {
    /// Currently running models.
    pub models: Vec<RunningModel>,
}

/// Progress report for a pull operation.
#[derive(Debug, Clone)]
pub struct PullProgress {
    /// Status of the pull operation.
    pub status: String,
    /// Digest being processed.
    pub digest: Option<String>,
    /// Total bytes to download.
    pub total: Option<u64>,
    /// Bytes completed.
    pub completed: Option<u64>,
}

/// Progress report for a model creation.
#[derive(Debug, Clone)]
pub struct CreateProgress {
    /// Status of the creation.
    pub status: String,
    /// Progress details.
    pub detail: Option<String>,
}

/// Request to copy a model.
#[derive(Debug, Clone)]
pub struct CopyRequest {
    /// Source model name.
    pub source: String,
    /// Destination model name.
    pub destination: String,
}

/// Request to delete a model.
#[derive(Debug, Clone)]
pub struct DeleteRequest {
    /// Model name to delete.
    pub name: String,
}

/// Request to show a model.
#[derive(Debug, Clone)]
pub struct ShowRequest {
    /// Model name to show.
    pub name: String,
    /// Whether to include verbose information.
    pub verbose: Option<bool>,
}

/// Request to pull a model.
#[derive(Debug, Clone)]
pub struct PullRequest {
    /// Model name to pull.
    pub name: String,
    /// Whether to stream progress updates.
    pub stream: Option<bool>,
    /// Whether to skip transport security verification.
    pub insecure: Option<bool>,
}

/// Request to create a model.
#[derive(Debug, Clone)]
pub struct CreateRequest {
    /// Name for the new model.
    pub name: String,
    /// Modelfile content.
    pub modelfile: String,
    /// Whether to stream progress updates.
    pub stream: Option<bool>,
    /// Quantization method.
    pub quantize: Option<String>,
}

/// Whether `pat` occurs as a contiguous substring of `s`.
pub open spec fn contains_substring(s: Seq<char>, pat: Seq<char>) -> bool {
    exists|i: int|
        0 <= i <= s.len() - pat.len() && #[trigger] s.subrange(i, i + pat.len() as int) == pat
}

/// Relies on str::contains with a string pattern: true exactly when the
/// pattern occurs as a contiguous substring of the receiver.
#[verifier::external_body]
fn str_contains(s: &str, pat: &str) -> (r: bool)
    ensures
        r == contains_substring(s@, pat@),
{
    s.contains(pat)
}

/// What str::to_lowercase returns.
pub uninterp spec fn lowercase_of(s: Seq<char>) -> Seq<char>;

/// Relies on str::to_lowercase: the result is a function of the
/// receiver's characters alone.
#[verifier::external_body]
fn to_lowercase(s: &str) -> (r: String)
    ensures
        r@ == lowercase_of(s@),
{
    s.to_lowercase()
}

/// Relies on std::time::SystemTime::now for the current time, reported
/// as seconds since the Unix epoch; a clock reading before the epoch
/// comes back negated rather than failing. Nothing is promised of the
/// value.
#[verifier::external_body]
fn current_unix_time() -> i64 {
    match std::time::SystemTime::now().duration_since(std::time::UNIX_EPOCH) {
        Ok(since) => since.as_secs() as i64,
        Err(before) => -(before.duration().as_secs() as i64),
    }
}

impl PullProgress {
    /// Whether the pull has finished: the lowercased status mentions
    /// success or completion, or the byte counters agree.
    pub fn is_complete(&self) -> (r: bool)
        ensures
            r == (contains_substring(lowercase_of(self.status@), "success"@)
                || contains_substring(lowercase_of(self.status@), "complete"@) || (self.completed
                is Some && self.total is Some && self.completed == self.total)),
    {
        let lower = to_lowercase(self.status.as_str());
        if str_contains(lower.as_str(), "success") {
            true
        } else if str_contains(lower.as_str(), "complete") {
            true
        } else {
            match (self.completed, self.total) {
                (Some(c), Some(t)) => c == t,
                _ => false,
            }
        }
    }
}

/// The position of the first ':' at or after `i`, counted in
/// characters; nothing where none follows.
pub open spec fn first_colon_from(name: Seq<char>, i: int) -> Option<int>
    decreases name.len() - i,
{
    if i < 0 || i >= name.len() {
        None
    } else if name[i] == ':' {
        Some(i)
    } else {
        first_colon_from(name, i + 1)
    }
}

impl Model {
    /// The model size as human-readable text.
    pub fn size_string(&self) -> (r: String)
        ensures
            r@ == format_bytes_spec(self.size as nat),
    {
        format_bytes(self.size)
    }

    /// The name up to the first ':', or the whole name where it has no
    /// tag.
    pub fn base_name(&self) -> (r: &str)
        ensures
            match first_colon_from(self.name@, 0) {
                Some(i) => r@ == self.name@.subrange(0, i),
                None => r@ == self.name@,
            },
    {
        let name = self.name.as_str();
        let n = name.unicode_len();
        let mut j: usize = 0;
        while j < n && name.get_char(j) != ':'
            invariant
                0 <= j <= n == name@.len(),
                first_colon_from(name@, 0) == first_colon_from(name@, j as int),
            decreases n - j,
        {
            j = j + 1;
        }
        if j < n {
            name.substring_char(0, j)
        } else {
            name
        }
    }

    /// The tag: the part of the name between the first ':' and the
    /// next one or the end, where the name has a ':' at all.
    pub fn tag(&self) -> (r: Option<&str>)
        ensures
            match first_colon_from(self.name@, 0) {
                Some(i) => r matches Some(t) && t@ == self.name@.subrange(
                    i + 1,
                    match first_colon_from(self.name@, i + 1) {
                        Some(k) => k,
                        None => self.name@.len() as int,
                    },
                ),
                None => r is None,
            },
    {
        let name = self.name.as_str();
        let n = name.unicode_len();
        let mut j: usize = 0;
        while j < n && name.get_char(j) != ':'
            invariant
                0 <= j <= n == name@.len(),
                first_colon_from(name@, 0) == first_colon_from(name@, j as int),
            decreases n - j,
        {
            j = j + 1;
        }
        if j == n {
            return None;
        }
        let mut k: usize = j + 1;
        while k < n && name.get_char(k) != ':'
            invariant
                j + 1 <= k <= n == name@.len(),
                first_colon_from(name@, j + 1) == first_colon_from(name@, k as int),
            decreases n - k,
        {
            k = k + 1;
        }
        Some(name.substring_char(j + 1, k))
    }

    /// Whether the name carries a tag other than `latest`.
    pub fn is_custom(&self) -> (r: bool)
        ensures
            r == (contains_substring(self.name@, ":"@) && !contains_substring(
                self.name@,
                "latest"@,
            )),
    {
        str_contains(self.name.as_str(), ":") && !str_contains(self.name.as_str(), "latest")
    }
}

impl RunningModel {
    /// The model size as human-readable text.
    pub fn size_string(&self) -> (r: String)
        ensures
            r@ == format_bytes_spec(self.size as nat),
    {
        format_bytes(self.size)
    }

    /// The video memory usage as human-readable text.
    pub fn vram_string(&self) -> (r: String)
        ensures
            match self.size_vram {
                Some(b) => r@ == format_bytes_spec(b as nat),
                None => r@ == "Unknown"@,
            },
    {
        match self.size_vram {
            Some(b) => format_bytes(b),
            None => String::from_str("Unknown"),
        }
    }

    /// Whether the model leaves memory within the next two minutes
    /// measured from `now` (seconds since the Unix epoch); a model with
    /// no recorded expiry never does.
    pub fn expires_soon_at(&self, now: i64) -> (r: bool)
        ensures
            r == match self.expires_at {
                Some(t) => t - now < 120,
                None => false,
            },
    {
        match self.expires_at {
            Some(t) => (t as i128) - (now as i128) < 120,
            None => false,
        }
    }

    /// Whether the model leaves memory soon, measured from the system
    /// clock. A model with no recorded expiry never does, whatever the
    /// clock reads.
    pub fn expires_soon(&self) -> (r: bool)
        ensures
            self.expires_at is None ==> r == false,
    {
        let now = current_unix_time();
        self.expires_soon_at(now)
    }
}

/// The decimal digit character for `d`.
pub open spec fn digit_char(d: nat) -> char {
    if d == 0 {
        '0'
    } else if d == 1 {
        '1'
    } else if d == 2 {
        '2'
    } else if d == 3 {
        '3'
    } else if d == 4 {
        '4'
    } else if d == 5 {
        '5'
    } else if d == 6 {
        '6'
    } else if d == 7 {
        '7'
    } else if d == 8 {
        '8'
    } else {
        '9'
    }
}

/// The decimal rendering of `n`, most significant digit first.
pub open spec fn dec_digits(n: nat) -> Seq<char>
    decreases n,
{
    if n < 10 {
        seq![digit_char(n)]
    } else {
        dec_digits(n / 10) + seq![digit_char(n % 10)]
    }
}

fn digit_str(d: u64) -> (r: &'static str)
    requires
        d < 10,
    ensures
        r@ =~= seq![digit_char(d as nat)],
{
    proof {
        reveal_strlit("0");
        reveal_strlit("1");
        reveal_strlit("2");
        reveal_strlit("3");
        reveal_strlit("4");
        reveal_strlit("5");
        reveal_strlit("6");
        reveal_strlit("7");
        reveal_strlit("8");
        reveal_strlit("9");
    }
    match d {
        0 => "0",
        1 => "1",
        2 => "2",
        3 => "3",
        4 => "4",
        5 => "5",
        6 => "6",
        7 => "7",
        8 => "8",
        _ => "9",
    }
}

pub(crate) fn push_decimal(s: &mut String, n: u64)
    ensures
        final(s)@ == old(s)@ + dec_digits(n as nat),
    decreases n,
{
    if n < 10 {
        s.append(digit_str(n));
    } else {
        push_decimal(s, n / 10);
        s.append(digit_str(n % 10));
        proof {
            assert(old(s)@ + (dec_digits((n / 10) as nat) + seq![digit_char((n % 10) as nat)])
                =~= (old(s)@ + dec_digits((n / 10) as nat)) + seq![digit_char((n % 10) as nat)]);
        }
    }
}

/// Powers of 1024.
pub open spec fn pow1024(k: nat) -> nat
    decreases k,
{
    if k == 0 {
        1
    } else {
        1024 * pow1024((k - 1) as nat)
    }
}

proof fn lemma_pow1024_values()
    ensures
        pow1024(0) == 1,
        pow1024(1) == 1024,
        pow1024(2) == 0x100000,
        pow1024(3) == 0x40000000,
        pow1024(4) == 0x10000000000,
{
    assert(pow1024(1) == 1024 * pow1024(0));
    assert(pow1024(2) == 1024 * pow1024(1));
    assert(pow1024(3) == 1024 * pow1024(2));
    assert(pow1024(4) == 1024 * pow1024(3));
}

/// The unit in which `bytes` is reported, counted in powers of 1024
/// starting from `u` and capped at four (terabytes).
pub open spec fn byte_unit_from(bytes: nat, u: nat) -> nat
    decreases 4 - u,
{
    if u < 4 && bytes >= pow1024(u + 1) {
        byte_unit_from(bytes, u + 1)
    } else {
        u
    }
}

/// Division of `num` by `den` scaled to one decimal digit, rounded to
/// the nearest value with ties going to an even last digit.
pub open spec fn round_half_even(num: nat, den: nat) -> nat {
    let q = num / den;
    let r = num % den;
    if 2 * r > den {
        q + 1
    } else if 2 * r < den {
        q
    } else if q % 2 == 0 {
        q
    } else {
        q + 1
    }
}

/// The suffix printed for each unit.
pub open spec fn unit_suffix(u: nat) -> Seq<char> {
    if u == 1 {
        seq![' ', 'K', 'B']
    } else if u == 2 {
        seq![' ', 'M', 'B']
    } else if u == 3 {
        seq![' ', 'G', 'B']
    } else {
        seq![' ', 'T', 'B']
    }
}

/// The human-readable rendering of a byte count: plain bytes below one
/// kibibyte, otherwise one decimal digit in the largest unit not above
/// terabytes.
pub open spec fn format_bytes_spec(bytes: nat) -> Seq<char> {
    if bytes == 0 {
        seq!['0', ' ', 'B']
    } else {
        let u = byte_unit_from(bytes, 0);
        if u == 0 {
            dec_digits(bytes) + seq![' ', 'B']
        } else {
            let v10 = round_half_even(bytes * 10, pow1024(u));
            dec_digits(v10 / 10) + seq!['.', digit_char(v10 % 10)] + unit_suffix(u)
        }
    }
}

/// Renders a byte count as human-readable text, in the largest unit
/// from bytes to terabytes, with one decimal digit above the byte
/// range.
pub fn format_bytes(bytes: u64) -> (r: String)
    ensures
        r@ == format_bytes_spec(bytes as nat),
{
    proof {
        lemma_pow1024_values();
        reveal_strlit("0 B");
        reveal_strlit(" B");
        reveal_strlit(".");
        reveal_strlit(" KB");
        reveal_strlit(" MB");
        reveal_strlit(" GB");
        reveal_strlit(" TB");
    }
    if bytes == 0 {
        let s = String::from_str("0 B");
        proof {
            assert(s@ =~= seq!['0', ' ', 'B']);
        }
        return s;
    }
    let mut unit: u64 = 0;
    let mut den: u64 = 1;
    while unit < 4 && bytes >= den * 1024
        invariant
            0 <= unit <= 4,
            den == pow1024(unit as nat),
            den <= 0x10000000000,
            byte_unit_from(bytes as nat, unit as nat) == byte_unit_from(bytes as nat, 0),
            bytes >= den,
        decreases 4 - unit,
    {
        proof {
            lemma_pow1024_values();
        }
        den = den * 1024;
        unit = unit + 1;
    }
    proof {
        assert(byte_unit_from(bytes as nat, unit as nat) == unit as nat);
    }
    let mut s = String::new();
    if unit == 0 {
        push_decimal(&mut s, bytes);
        s.append(" B");
        proof {
            assert(" B"@ =~= seq![' ', 'B']);
            assert(s@ =~= dec_digits(bytes as nat) + seq![' ', 'B']);
        }
        return s;
    }
    let num: u128 = (bytes as u128) * 10;
    let d: u128 = den as u128;
    let q128: u128 = num / d;
    let rem: u128 = num % d;
    proof {
        assert(num / d <= num) by (nonlinear_arith)
            requires
                d >= 1,
                num >= 0,
        ;
    }
    let q: u64 = q128 as u64;
    let v10: u64 = if 2 * rem > d {
        q + 1
    } else if 2 * rem < d {
        q
    } else if q % 2 == 0 {
        q
    } else {
        q + 1
    };
    proof {
        assert(v10 as nat == round_half_even((bytes * 10) as nat, pow1024(unit as nat)));
    }
    push_decimal(&mut s, v10 / 10);
    s.append(".");
    s.append(digit_str(v10 % 10));
    match unit {
        1 => s.append(" KB"),
        2 => s.append(" MB"),
        3 => s.append(" GB"),
        _ => s.append(" TB"),
    }
    proof {
        assert(".".view() =~= seq!['.']);
        assert(" KB"@ =~= seq![' ', 'K', 'B']);
        assert(" MB"@ =~= seq![' ', 'M', 'B']);
        assert(" GB"@ =~= seq![' ', 'G', 'B']);
        assert(" TB"@ =~= seq![' ', 'T', 'B']);
        assert(s@ =~= dec_digits((v10 / 10) as nat) + seq!['.', digit_char((v10 % 10) as nat)]
            + unit_suffix(unit as nat));
    }
    s
}

} // verus!
