//! Guarding text that is spliced into SQL statements.

use vstd::prelude::*;

use vstd::string::StrSliceExecFns;

verus! {

/// The component broke the SQL guard: it holds `;` or `--`.
#[derive(Clone, Copy, PartialEq, Eq, Structural, Debug)]
pub struct SqlComponentError;

/// A text may be spliced into a SQL statement when it holds no statement
/// separator `;` and no comment introducer `--`.
pub open spec fn sql_component_ok(s: Seq<char>) -> bool {
    &&& forall|i: int| 0 <= i < s.len() ==> s[i] != ';'
    &&& forall|i: int| 0 <= i && i + 1 < s.len() ==> !(#[trigger] s[i] == '-' && s[i + 1] == '-')
}

/// Accepts the text exactly when it is safe to splice into a SQL statement,
/// returning it unchanged.
pub fn check_sql_component(raw: &str) -> (r: Result<String, SqlComponentError>)
    ensures
        match r {
            Ok(s) => s@ == raw@ && sql_component_ok(raw@),
            Err(_) => !sql_component_ok(raw@),
        },
{
    let n = raw.unicode_len();
    let mut i: usize = 0;
    while i < n
        invariant
            n == raw@.len(),
            0 <= i <= n,
            forall|j: int| 0 <= j < i ==> raw@[j] != ';',
            forall|j: int|
                0 <= j && j + 1 <= i && j + 1 < n ==> !(#[trigger] raw@[j] == '-' && raw@[j + 1]
                    == '-'),
        decreases n - i,
    {
        let c = raw.get_char(i);
        if c == ';' {
            return Err(SqlComponentError);
        }
        if c == '-' && i + 1 < n {
            if raw.get_char(i + 1) == '-' {
                return Err(SqlComponentError);
            }
        }
        i += 1;
    }
    Ok(raw.to_owned())
}

} // verus!
