use vstd::prelude::*;
use crate::text::same_text;

verus! {

/// The platforms an install artifact exists for.
#[derive(Clone, Copy, Debug, PartialEq, Eq, Structural)]
pub enum ArchTag {
    LinuxX64,
    LinuxArm64,
}

/// The tag's name, as it appears in artifact URLs and directory names.
pub open spec fn tag_name(t: ArchTag) -> Seq<char> {
    match t {
        ArchTag::LinuxX64 => "linux-x64"@,
        ArchTag::LinuxArm64 => "linux-arm64"@,
    }
}

/// The tag that a normalized hardware identifier maps to; anything
/// unrecognized falls back to 64-bit x86.
pub open spec fn tag_for_machine(m: Seq<char>) -> ArchTag {
    if m == "aarch64"@ || m == "arm64"@ {
        ArchTag::LinuxArm64
    } else {
        ArchTag::LinuxX64
    }
}

/// Whether a normalized hardware identifier is one the mapping lists.
pub open spec fn machine_is_known(m: Seq<char>) -> bool {
    m == "x86_64"@ || m == "aarch64"@ || m == "arm64"@
}

/// What the standard library's `str::trim` returns for these characters.
pub uninterp spec fn trim_of(s: Seq<char>) -> Seq<char>;

/// What the standard library's `str::to_lowercase` returns for these characters.
pub uninterp spec fn lower_of(s: Seq<char>) -> Seq<char>;

/// The hardware identifier as the mapping reads it: trimmed, then lower case.
pub open spec fn normalized_machine(raw: Seq<char>) -> Seq<char> {
    lower_of(trim_of(raw))
}

/// Relies on `str::trim`: the slice without leading and trailing white space,
/// a function of the characters alone.
#[verifier::external_body]
fn trimmed(s: &str) -> (r: &str)
    ensures
        r@ == trim_of(s@),
{
    s.trim()
}

/// Relies on `str::to_lowercase`: the lower-case form, a function of the
/// characters alone.
#[verifier::external_body]
fn lowercase(s: &str) -> (r: String)
    ensures
        r@ == lower_of(s@),
{
    s.to_lowercase()
}

/// The outcome of reading a remote machine's hardware identifier.
#[derive(Clone, Debug, PartialEq, Eq)]
pub struct ArchDetection {
    /// The identifier after trimming and lower-casing.
    pub machine: String,
    /// The tag chosen for it.
    pub tag: ArchTag,
    /// False when the identifier is not one the mapping lists, in which case
    /// the tag is the default and the operator is warned.
    pub recognized: bool,
}

impl ArchTag {
    /// The tag's name.
    pub fn name(&self) -> (r: &'static str)
        ensures
            r@ == tag_name(*self),
    {
        match self {
            ArchTag::LinuxX64 => "linux-x64",
            ArchTag::LinuxArm64 => "linux-arm64",
        }
    }

    /// The tag with the given name, if there is one.
    pub fn from_name(s: &str) -> (r: Option<ArchTag>)
        ensures
            r == (if s@ == tag_name(ArchTag::LinuxX64) {
                Some(ArchTag::LinuxX64)
            } else if s@ == tag_name(ArchTag::LinuxArm64) {
                Some(ArchTag::LinuxArm64)
            } else {
                None::<ArchTag>
            }),
    {
        if same_text(s, "linux-x64") {
            Some(ArchTag::LinuxX64)
        } else if same_text(s, "linux-arm64") {
            Some(ArchTag::LinuxArm64)
        } else {
            None
        }
    }
}

/// Maps an already normalized hardware identifier to its tag.
pub fn classify_machine(m: &str) -> (r: (ArchTag, bool))
    ensures
        r.0 == tag_for_machine(m@),
        r.1 == machine_is_known(m@),
{
    proof {
        lemma_mapping_total(m@);
    }
    if same_text(m, "x86_64") {
        (ArchTag::LinuxX64, true)
    } else if same_text(m, "aarch64") || same_text(m, "arm64") {
        (ArchTag::LinuxArm64, true)
    } else {
        (ArchTag::LinuxX64, false)
    }
}

/// Reads the output of the remote hardware-identifier command. Never fails:
/// an unrecognized identifier yields the default tag, marked unrecognized.
pub fn detect_from_output(raw: &str) -> (r: ArchDetection)
    ensures
        r.machine@ == normalized_machine(raw@),
        r.tag == tag_for_machine(normalized_machine(raw@)),
        r.recognized == machine_is_known(normalized_machine(raw@)),
{
    let m = lowercase(trimmed(raw));
    let (tag, recognized) = classify_machine(m.as_str());
    ArchDetection { machine: m, tag, recognized }
}

/// Every listed identifier maps to its listed tag, and every other identifier
/// maps to the default tag and is reported as unrecognized.
pub proof fn lemma_mapping_total(m: Seq<char>)
    ensures
        m == "x86_64"@ ==> tag_for_machine(m) == ArchTag::LinuxX64 && machine_is_known(m),
        (m == "aarch64"@ || m == "arm64"@) ==> tag_for_machine(m) == ArchTag::LinuxArm64
            && machine_is_known(m),
        !machine_is_known(m) ==> tag_for_machine(m) == ArchTag::LinuxX64,
{
    reveal_strlit("x86_64");
    reveal_strlit("aarch64");
    reveal_strlit("arm64");
    assert("x86_64"@.len() == 6);
    assert("aarch64"@.len() == 7);
    assert("arm64"@.len() == 5);
}

} // verus!
