use vstd::prelude::*;

use crate::decimal::{decimal_spec, lemma_decimal_nonempty, lemma_parse_decimal_roundtrip, parse_i32_spec, push_decimal};
use crate::text::push_bytes;
use crate::gl_def::{GLX_CONTEXT_MAJOR_VERSION_ARB, GLX_CONTEXT_MINOR_VERSION_ARB, GL_VERSION};

verus! {

/// The attribute list after the version keys from position `i` on were
/// rewritten to ask for version 3, and the version numbers the list asked
/// for (`major`, `minor` are those found before `i`, 0 for none yet).
///
/// The list holds key/value pairs. The scan stops once both a non-zero
/// major and a non-zero minor version were seen, at a key 0, or when no
/// whole pair is left.
pub open spec fn spoof_attribs_spec(a: Seq<i32>, i: nat, major: i32, minor: i32) -> (Seq<i32>, i32, i32)
    decreases a.len() - i,
{
    if (major != 0 && minor != 0) || i + 1 >= a.len() || a[i as int] == 0 {
        (a, major, minor)
    } else if a[i as int] == GLX_CONTEXT_MINOR_VERSION_ARB {
        spoof_attribs_spec(a.update(i + 1int, 3), i + 2, major, a[i + 1int])
    } else if a[i as int] == GLX_CONTEXT_MAJOR_VERSION_ARB {
        spoof_attribs_spec(a.update(i + 1int, 3), i + 2, a[i + 1int], minor)
    } else {
        spoof_attribs_spec(a, i + 2, major, minor)
    }
}

/// Only the values of version keys change, and each to 3.
pub open spec fn only_versions_lowered(before: Seq<i32>, after: Seq<i32>) -> bool {
    &&& after.len() == before.len()
    &&& forall|j: int|
        0 <= j < before.len() && #[trigger] after[j] != before[j] ==> {
            &&& after[j] == 3
            &&& j >= 1
            &&& (before[j - 1] == GLX_CONTEXT_MAJOR_VERSION_ARB || before[j - 1]
                == GLX_CONTEXT_MINOR_VERSION_ARB)
        }
}

proof fn lemma_spoof_only_versions(a: Seq<i32>, i: nat, major: i32, minor: i32)
    ensures
        only_versions_lowered(a, spoof_attribs_spec(a, i, major, minor).0),
    decreases a.len() - i,
{
    if (major != 0 && minor != 0) || i + 1 >= a.len() || a[i as int] == 0 {
    } else if a[i as int] == GLX_CONTEXT_MINOR_VERSION_ARB || a[i as int]
        == GLX_CONTEXT_MAJOR_VERSION_ARB {
        let b = a.update(i + 1int, 3);
        let (nmaj, nmin) = if a[i as int] == GLX_CONTEXT_MINOR_VERSION_ARB {
            (major, a[i + 1int])
        } else {
            (a[i + 1int], minor)
        };
        lemma_spoof_only_versions(b, i + 2, nmaj, nmin);
        let after = spoof_attribs_spec(a, i, major, minor).0;
        assert(after == spoof_attribs_spec(b, i + 2, nmaj, nmin).0);
        assert forall|j: int|
            0 <= j < a.len() && #[trigger] after[j] != a[j] implies {
            &&& after[j] == 3
            &&& j >= 1
            &&& (a[j - 1] == GLX_CONTEXT_MAJOR_VERSION_ARB || a[j - 1]
                == GLX_CONTEXT_MINOR_VERSION_ARB)
        } by {
            if j != i + 1 {
                assert(b[j] == a[j]);
                assert(b[j - 1] == a[j - 1]);
            }
        }
    } else {
        lemma_spoof_only_versions(a, i + 2, major, minor);
    }
}

/// Rewrites a GLX context attribute list so that it asks for version 3.3
/// instead of the version it named, and returns the (major, minor) version
/// it named (0 for one it did not name).
pub fn spoof_context_version(attribs: &mut Vec<i32>) -> (r: (i32, i32))
    ensures
        (final(attribs)@, r.0, r.1) == spoof_attribs_spec(old(attribs)@, 0, 0, 0),
        only_versions_lowered(old(attribs)@, final(attribs)@),
{
    proof {
        lemma_spoof_only_versions(old(attribs)@, 0, 0, 0);
    }
    let mut major: i32 = 0;
    let mut minor: i32 = 0;
    let mut i: usize = 0;
    let len = attribs.len();
    while (major == 0 || minor == 0) && i < len && len - i > 1 && attribs[i] != 0
        invariant
            len == attribs@.len(),
            i <= len,
            spoof_attribs_spec(attribs@, i as nat, major, minor) == spoof_attribs_spec(
                old(attribs)@,
                0,
                0,
                0,
            ),
        decreases len - i,
    {
        let key = attribs[i];
        let value = attribs[i + 1];
        if key == GLX_CONTEXT_MINOR_VERSION_ARB {
            minor = value;
            attribs.set(i + 1, 3);
        } else if key == GLX_CONTEXT_MAJOR_VERSION_ARB {
            major = value;
            attribs.set(i + 1, 3);
        }
        i = i + 2;
    }
    (major, minor)
}

/// ` ProbriqueGL 0.0.1`, in ASCII.
pub open spec fn brand_suffix() -> Seq<u8> {
    seq![32u8, 80u8, 114u8, 111u8, 98u8, 114u8, 105u8, 113u8, 117u8, 101u8, 71u8, 76u8, 32u8, 48u8, 46u8, 48u8, 46u8, 49u8]
}

/// The version string reported once the game asked for `major.minor`:
/// `{major}.{minor} ProbriqueGL 0.0.1`.
pub open spec fn version_text_spec(major: i32, minor: i32) -> Seq<u8> {
    decimal_spec(major as int) + seq![46u8] + decimal_spec(minor as int) + brand_suffix()
}

/// The version string reported before the game asked for any version.
pub open spec fn initial_version_spec() -> Seq<u8> {
    seq![52u8, 46u8, 50u8]
}

/// Writes `{major}.{minor} ProbriqueGL 0.0.1`.
pub fn version_text(major: i32, minor: i32) -> (r: Vec<u8>)
    ensures
        r@ == version_text_spec(major, minor),
{
    let mut out: Vec<u8> = Vec::new();
    push_decimal(major, &mut out);
    out.push(46u8);
    push_decimal(minor, &mut out);
    let suffix: [u8; 18] = [32u8, 80u8, 114u8, 111u8, 98u8, 114u8, 105u8, 113u8, 117u8, 101u8, 71u8, 76u8, 32u8, 48u8, 46u8, 48u8, 46u8, 49u8];
    assert(suffix@ =~= brand_suffix());
    push_bytes(&mut out, vstd::array::array_as_slice(&suffix));
    assert(out@ =~= version_text_spec(major, minor));
    out
}

/// The version string the interposer reports in place of the driver's.
pub struct VersionSpoof {
    text: Vec<u8>,
}

impl View for VersionSpoof {
    type V = Seq<u8>;

    closed spec fn view(&self) -> Seq<u8> {
        self.text@
    }
}

/// What `glGetString(name)` answers in place of the driver while `reported`
/// is the reported version string.
pub open spec fn string_override_spec(reported: Seq<u8>, name: u32) -> Option<Seq<u8>> {
    if name == GL_VERSION {
        Some(reported)
    } else {
        None
    }
}

impl VersionSpoof {
    /// Reports version `4.2` until the game asks for a version.
    pub fn new() -> (r: Self)
        ensures
            r@ == initial_version_spec(),
    {
        let mut text: Vec<u8> = Vec::new();
        text.push(52u8);
        text.push(46u8);
        text.push(50u8);
        assert(text@ =~= initial_version_spec());
        VersionSpoof { text }
    }

    /// Reports, from now on, the version the game asked for when it
    /// created its context.
    pub fn report_requested(&mut self, major: i32, minor: i32)
        ensures
            final(self)@ == version_text_spec(major, minor),
    {
        self.text = version_text(major, minor);
    }

    /// The string `glGetString(name)` answers with in place of the
    /// driver's: the reported version for `GL_VERSION`, none for any other
    /// name.
    pub fn string_for(&self, name: u32) -> (r: Option<&[u8]>)
        ensures
            match r {
                Some(s) => string_override_spec(self@, name) == Some(s@),
                None => string_override_spec(self@, name) is None,
            },
    {
        if name == GL_VERSION {
            Some(self.text.as_slice())
        } else {
            None
        }
    }
}

/// After the game asked for `major.minor`, `glGetString(GL_VERSION)` gives
/// back `{major}.{minor} ProbriqueGL 0.0.1`, and every other name still
/// goes to the driver.
pub proof fn lemma_reported_version_reads_back(major: i32, minor: i32, name: u32)
    ensures
        string_override_spec(version_text_spec(major, minor), name) == (if name == GL_VERSION {
            Some(version_text_spec(major, minor))
        } else {
            None
        }),
{
}


/// Reading back a reported version string gives the version that was
/// asked for: it is the major number, a `.`, the minor number and
/// ` ProbriqueGL 0.0.1`, each number read as `str::parse` reads it.
pub proof fn lemma_version_text_reads_back(major: i32, minor: i32)
    ensures
        ({
            let t = version_text_spec(major, minor);
            exists|k: int|
                0 <= k && k + 19 <= t.len() && #[trigger] t[k] == 46u8 && parse_i32_spec(t.take(k))
                    == Some(major) && parse_i32_spec(t.subrange(k + 1, t.len() - 18)) == Some(minor)
                    && t.skip(t.len() - 18) =~= seq![32u8, 80u8, 114u8, 111u8, 98u8, 114u8, 105u8, 113u8, 117u8, 101u8, 71u8, 76u8, 32u8, 48u8, 46u8, 48u8, 46u8, 49u8]
        }),
{
    let t = version_text_spec(major, minor);
    let a = decimal_spec(major as int);
    let b = decimal_spec(minor as int);
    let k = a.len() as int;
    lemma_parse_decimal_roundtrip(major);
    lemma_parse_decimal_roundtrip(minor);
    lemma_decimal_nonempty(minor as int);
    assert(t.take(k) =~= a);
    assert(t.subrange(k + 1, t.len() - 18) =~= b);
    assert(t.skip(t.len() - 18) =~= brand_suffix());
    assert(t[k] == 46u8);
}

/// The pairs the scan of an attribute list reads, without rewriting
/// anything: where it stops, and the last major and minor version values
/// read before that (0 when none).
pub open spec fn scan_attribs(a: Seq<i32>, i: nat, major: i32, minor: i32) -> (nat, i32, i32)
    decreases a.len() - i,
{
    if (major != 0 && minor != 0) || i + 1 >= a.len() || a[i as int] == 0 {
        (i, major, minor)
    } else if a[i as int] == GLX_CONTEXT_MINOR_VERSION_ARB {
        scan_attribs(a, i + 2, major, a[i + 1int])
    } else if a[i as int] == GLX_CONTEXT_MAJOR_VERSION_ARB {
        scan_attribs(a, i + 2, a[i + 1int], minor)
    } else {
        scan_attribs(a, i + 2, major, minor)
    }
}

/// A version key.
pub open spec fn is_version_key(key: i32) -> bool {
    key == GLX_CONTEXT_MAJOR_VERSION_ARB || key == GLX_CONTEXT_MINOR_VERSION_ARB
}

proof fn lemma_scan_reads_from(a: Seq<i32>, b: Seq<i32>, i: nat, major: i32, minor: i32)
    requires
        a.len() == b.len(),
        forall|j: int| i <= j < a.len() ==> a[j] == b[j],
    ensures
        scan_attribs(a, i, major, minor) == scan_attribs(b, i, major, minor),
    decreases a.len() - i,
{
    if (major != 0 && minor != 0) || i + 1 >= a.len() || a[i as int] == 0 {
    } else if a[i as int] == GLX_CONTEXT_MINOR_VERSION_ARB {
        lemma_scan_reads_from(a, b, i + 2, major, a[i + 1int]);
    } else if a[i as int] == GLX_CONTEXT_MAJOR_VERSION_ARB {
        lemma_scan_reads_from(a, b, i + 2, a[i + 1int], minor);
    } else {
        lemma_scan_reads_from(a, b, i + 2, major, minor);
    }
}

proof fn lemma_spoof_is_scan(a: Seq<i32>, i: nat, major: i32, minor: i32)
    ensures
        ({
            let (stop, smaj, smin) = scan_attribs(a, i, major, minor);
            let (b, rmaj, rmin) = spoof_attribs_spec(a, i, major, minor);
            &&& i <= stop
            &&& (stop - i) % 2 == 0
            &&& stop <= a.len() || stop == i
            &&& rmaj == smaj && rmin == smin
            &&& b.len() == a.len()
            &&& forall|j: int|
                0 <= j < a.len() ==> #[trigger] b[j] == (if i <= j < stop && (j - i) % 2 == 1
                    && is_version_key(a[j - 1]) {
                    3
                } else {
                    a[j]
                })
        }),
    decreases a.len() - i,
{
    if (major != 0 && minor != 0) || i + 1 >= a.len() || a[i as int] == 0 {
    } else if is_version_key(a[i as int]) {
        let b = a.update(i + 1int, 3);
        let (nmaj, nmin) = if a[i as int] == GLX_CONTEXT_MINOR_VERSION_ARB {
            (major, a[i + 1int])
        } else {
            (a[i + 1int], minor)
        };
        lemma_spoof_is_scan(b, i + 2, nmaj, nmin);
        lemma_scan_reads_from(a, b, i + 2, nmaj, nmin);
        let (stop, smaj, smin) = scan_attribs(a, i, major, minor);
        let r = spoof_attribs_spec(a, i, major, minor).0;
        assert(scan_attribs(a, i, major, minor) == scan_attribs(b, i + 2, nmaj, nmin));
        assert(r == spoof_attribs_spec(b, i + 2, nmaj, nmin).0);
        assert forall|j: int| 0 <= j < a.len() implies #[trigger] r[j] == (if i <= j < stop && (j
            - i) % 2 == 1 && is_version_key(a[j - 1]) {
            3
        } else {
            a[j]
        }) by {
            if j == i + 1 {
            } else if i + 2 <= j < stop && (j - (i + 2)) % 2 == 1 {
                assert(b[j - 1] == a[j - 1]);
            }
        }
    } else {
        lemma_spoof_is_scan(a, i + 2, major, minor);
        let (stop, smaj, smin) = scan_attribs(a, i, major, minor);
        let r = spoof_attribs_spec(a, i, major, minor).0;
        assert forall|j: int| 0 <= j < a.len() implies #[trigger] r[j] == (if i <= j < stop && (j
            - i) % 2 == 1 && is_version_key(a[j - 1]) {
            3
        } else {
            a[j]
        }) by {
            if j == i + 1 {
            }
        }
    }
}

/// The rewrite of an attribute list, stated over what the scan reads:
/// every version key the scan reads has its value set to 3, in whatever
/// order the keys come; every other entry keeps its value; and the versions
/// returned are the last major and minor values the scan read.
pub proof fn lemma_spoof_lowers_every_scanned_version(a: Seq<i32>)
    ensures
        ({
            let (stop, smaj, smin) = scan_attribs(a, 0, 0, 0);
            let (b, rmaj, rmin) = spoof_attribs_spec(a, 0, 0, 0);
            &&& rmaj == smaj && rmin == smin
            &&& b.len() == a.len()
            &&& forall|j: int|
                0 <= j < stop && j % 2 == 0 && is_version_key(#[trigger] a[j]) ==> j + 1 < a.len()
                    && b[j + 1] == 3
            &&& forall|j: int|
                0 <= j < a.len() && !(j < stop && j % 2 == 1 && is_version_key(a[j - 1]))
                    ==> #[trigger] b[j] == a[j]
        }),
{
    lemma_spoof_is_scan(a, 0, 0, 0);
    let (stop, smaj, smin) = scan_attribs(a, 0, 0, 0);
    let b = spoof_attribs_spec(a, 0, 0, 0).0;
    assert forall|j: int|
        0 <= j < stop && j % 2 == 0 && is_version_key(#[trigger] a[j]) implies j + 1 < a.len()
        && b[j + 1] == 3 by {
        assert(b[j + 1] == 3);
    }
}

} // verus!
