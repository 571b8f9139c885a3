//! How storage failures become domain errors.

use vstd::prelude::*;

use crate::domain::error::DomainError;
use crate::domain::text::enclose;
use vstd::utf8::encode_utf8;

verus! {

/// A failure reported by the database driver, as the error mapping sees it.
#[derive(Debug)]
pub enum DatabaseFailure {
    /// A query that must return a row returned none.
    RowNotFound,
    /// The database refused the statement, with this message.
    Database(String),
    /// Any other failure, with its description.
    Other(String),
}

/// `needle` occurs in `haystack`, comparing their UTF-8 bytes.
pub open spec fn occurs_in(haystack: Seq<u8>, needle: Seq<u8>) -> bool {
    exists|i: int| 0 <= i <= haystack.len() - needle.len() && #[trigger] haystack.subrange(i, i + needle.len()) == needle
}

/// Whether `needle` occurs in `haystack` (`str::contains`).
pub fn contains_text(haystack: &str, needle: &str) -> (r: bool)
    ensures
        r == occurs_in(encode_utf8(haystack@), encode_utf8(needle@)),
{
    let h = haystack.as_bytes();
    let n = needle.as_bytes();
    if n.len() > h.len() {
        proof {
            assert forall|i: int| 0 <= i <= h@.len() - n@.len()
                implies #[trigger] h@.subrange(i, i + n@.len()) != n@ by {}
        }
        return false;
    }
    let last = h.len() - n.len();
    let mut i: usize = 0;
    while i <= last
        invariant
            h@ == encode_utf8(haystack@),
            n@ == encode_utf8(needle@),
            n@.len() <= h@.len(),
            h@.len() <= usize::MAX,
            last == h@.len() - n@.len(),
            i <= last + 1,
            forall|k: int| 0 <= k < i ==> #[trigger] h@.subrange(k, k + n@.len()) != n@,
        decreases last + 1 - i,
    {
        let mut j: usize = 0;
        let mut same = true;
        while j < n.len()
            invariant
                h@ == encode_utf8(haystack@),
                n@ == encode_utf8(needle@),
                i <= last,
                n@.len() <= h@.len(),
                h@.len() <= usize::MAX,
                last == h@.len() - n@.len(),
                j <= n@.len(),
                same == forall|t: int| 0 <= t < j ==> h@[i + t] == n@[t],
            decreases n@.len() - j,
        {
            if h[i + j] != n[j] {
                same = false;
            }
            j = j + 1;
        }
        if same {
            proof {
                assert(h@.subrange(i as int, i + n@.len()) =~= n@);
            }
            return true;
        }
        proof {
            let t = choose|t: int| 0 <= t < n@.len() && h@[i + t] != n@[t];
            assert(h@.subrange(i as int, i + n@.len())[t] != n@[t]);
        }
        if i == last {
            proof {
                assert forall|k: int| 0 <= k <= h@.len() - n@.len()
                    implies #[trigger] h@.subrange(k, k + n@.len()) != n@ by {
                    if k < i {
                    }
                }
            }
            return false;
        }
        i = i + 1;
    }
    false
}

/// Message of a duplicate record.
pub open spec fn duplicate_record() -> Seq<char> {
    "Registro duplicado"@
}

/// Message of a missing row.
pub open spec fn resource_not_found() -> Seq<char> {
    "Recurso não encontrado"@
}

/// Text marking a violated uniqueness constraint in SQLite's messages.
pub open spec fn unique_violation_marker() -> Seq<char> {
    "UNIQUE constraint"@
}

/// Message of an internal database failure described by `detail`.
pub open spec fn database_failure(detail: Seq<char>) -> Seq<char> {
    "Erro no banco de dados: "@ + detail
}

/// Maps a database failure to a domain error: a missing row is `NotFound`,
/// a refusal whose message mentions a uniqueness constraint is `Conflict`,
/// anything else is `Internal`, carrying the database's description.
pub fn map_err(e: DatabaseFailure) -> (r: DomainError)
    ensures
        e is RowNotFound ==> r is NotFound && r.message() == resource_not_found(),
        e matches DatabaseFailure::Database(m) ==> {
            &&& occurs_in(encode_utf8(m@), encode_utf8(unique_violation_marker()))
                ==> r is Conflict && r.message() == duplicate_record()
            &&& !occurs_in(encode_utf8(m@), encode_utf8(unique_violation_marker()))
                ==> r is Internal && r.message() == database_failure(m@)
        },
        e matches DatabaseFailure::Other(d) ==> (r is Internal && r.message() == database_failure(d@)),
{
    proof {
        reveal_strlit("");
    }
    match e {
        DatabaseFailure::RowNotFound => DomainError::NotFound(String::from_str("Recurso não encontrado")),
        DatabaseFailure::Database(m) => {
            if contains_text(m.as_str(), "UNIQUE constraint") {
                DomainError::Conflict(String::from_str("Registro duplicado"))
            } else {
                let detail = enclose("Erro no banco de dados: ", m.as_str(), "");
                proof {
                    assert(detail@ =~= database_failure(m@));
                }
                DomainError::Internal(detail)
            }
        },
        DatabaseFailure::Other(d) => {
            let detail = enclose("Erro no banco de dados: ", d.as_str(), "");
            proof {
                assert(detail@ =~= database_failure(d@));
            }
            DomainError::Internal(detail)
        },
    }
}

} // verus!
