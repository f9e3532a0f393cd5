use vstd::prelude::*;

verus! {

/// How a refused request is answered over HTTP.
#[derive(Debug, Clone, Copy, PartialEq, Eq, Structural)]
pub enum ErrorKind {
    NotFound,
    Validation,
    Conflict,
    RateLimited,
    Internal,
}

/// The text holds the fragment somewhere.
pub open spec fn has_fragment(text: Seq<char>, frag: Seq<char>) -> bool {
    exists|i: int| 0 <= i && i + frag.len() <= text.len() && #[trigger] text.subrange(i, i + frag.len()) == frag
}

/// Whether the text holds the fragment (`str::contains`).
pub fn contains_text(text: &str, frag: &str) -> (r: bool)
    ensures
        r == has_fragment(text@, frag@),
{
    let n = text.unicode_len();
    let m = frag.unicode_len();
    if m > n {
        proof {
            assert forall|i: int| 0 <= i && i + frag@.len() <= text@.len() implies #[trigger] text@.subrange(i, i + frag@.len()) != frag@ by {
            }
        }
        return false;
    }
    let last = n - m;
    let mut i: usize = 0;
    while i <= last
        invariant
            n == text@.len(),
            m == frag@.len(),
            m <= n,
            last == n - m,
            i <= last + 1,
            forall|k: int| 0 <= k < i ==> #[trigger] text@.subrange(k, k + m) != frag@,
        decreases last + 1 - i,
    {
        let mut j: usize = 0;
        let mut same = true;
        while j < m
            invariant
                n == text@.len(),
                m == frag@.len(),
                i + m <= n,
                j <= m,
                same == forall|x: int| 0 <= x < j ==> text@[i + x] == frag@[x],
            decreases m - j,
        {
            if text.get_char(i + j) != frag.get_char(j) {
                same = false;
            }
            j = j + 1;
        }
        if same {
            proof {
                assert(text@.subrange(i as int, i + m) =~= frag@);
            }
            return true;
        }
        proof {
            let x = choose|x: int| 0 <= x < m && text@[i + x] != frag@[x];
            assert(text@.subrange(i as int, i + m)[x] != frag@[x]);
        }
        i = i + 1;
    }
    false
}

/// How a refused application step is answered, by its message.
pub open spec fn lamaran_error_kind_spec(msg: Seq<char>) -> ErrorKind {
    if has_fragment(msg, "tidak ditemukan"@) {
        ErrorKind::NotFound
    } else if has_fragment(msg, "milik sendiri"@) || has_fragment(msg, "Iklan Pekerja aktif"@) || has_fragment(
        msg,
        "luar radius 50m"@,
    ) {
        ErrorKind::Validation
    } else if has_fragment(msg, "rentang waktu yang sama"@) || has_fragment(msg, "jam sebelum pekerjaan dimulai"@)
        || has_fragment(msg, "tidak dapat dimulai"@) || has_fragment(msg, "tidak dapat ditandai selesai"@) {
        ErrorKind::Conflict
    } else {
        ErrorKind::Internal
    }
}

pub fn lamaran_error_kind(msg: &str) -> (r: ErrorKind)
    ensures
        r == lamaran_error_kind_spec(msg@),
{
    if contains_text(msg, "tidak ditemukan") {
        ErrorKind::NotFound
    } else if contains_text(msg, "milik sendiri") || contains_text(msg, "Iklan Pekerja aktif") || contains_text(
        msg,
        "luar radius 50m",
    ) {
        ErrorKind::Validation
    } else if contains_text(msg, "rentang waktu yang sama") || contains_text(msg, "jam sebelum pekerjaan dimulai")
        || contains_text(msg, "tidak dapat dimulai") || contains_text(msg, "tidak dapat ditandai selesai") {
        ErrorKind::Conflict
    } else {
        ErrorKind::Internal
    }
}

/// How a refused edit is answered, by its message.
pub open spec fn update_error_kind_spec(msg: Seq<char>) -> ErrorKind {
    if has_fragment(msg, "terlalu banyak permintaan"@) {
        ErrorKind::RateLimited
    } else if has_fragment(msg, "tidak ditemukan"@) {
        ErrorKind::NotFound
    } else if has_fragment(msg, "status moderasi"@) {
        ErrorKind::Conflict
    } else {
        ErrorKind::Internal
    }
}

pub fn update_error_kind(msg: &str) -> (r: ErrorKind)
    ensures
        r == update_error_kind_spec(msg@),
{
    if contains_text(msg, "terlalu banyak permintaan") {
        ErrorKind::RateLimited
    } else if contains_text(msg, "tidak ditemukan") {
        ErrorKind::NotFound
    } else if contains_text(msg, "status moderasi") {
        ErrorKind::Conflict
    } else {
        ErrorKind::Internal
    }
}

/// How a refused new ad is answered, by its message.
pub open spec fn create_error_kind_spec(msg: Seq<char>) -> ErrorKind {
    if has_fragment(msg, "terlalu banyak permintaan"@) {
        ErrorKind::RateLimited
    } else {
        ErrorKind::Internal
    }
}

pub fn create_error_kind(msg: &str) -> (r: ErrorKind)
    ensures
        r == create_error_kind_spec(msg@),
{
    if contains_text(msg, "terlalu banyak permintaan") {
        ErrorKind::RateLimited
    } else {
        ErrorKind::Internal
    }
}

} // verus!
