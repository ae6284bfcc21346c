//! Account identifiers: what an account of the chain may be called.

use vstd::prelude::*;
use vstd::std_specs::cmp::PartialEqSpecImpl;

verus! {

/// The shortest identifier of an account.
pub const MIN_LEN: usize = 2;

/// The longest identifier of an account.
pub const MAX_LEN: usize = 64;

/// Whether `c` separates the parts of an identifier.
pub open spec fn is_separator(c: char) -> bool {
    c == '-' || c == '_' || c == '.'
}

/// Whether `c` is a lower-case letter or a digit.
pub open spec fn is_letter_or_digit(c: char) -> bool {
    ('a' <= c && c <= 'z') || ('0' <= c && c <= '9')
}

/// Whether `id` may name an account: 2 to 64 lower-case letters, digits and
/// separators, with no separator at either end and no two of them in a row.
pub open spec fn valid_account_id(id: Seq<char>) -> bool {
    &&& MIN_LEN <= id.len() <= MAX_LEN
    &&& forall|i: int|
        0 <= i < id.len() ==> is_letter_or_digit(#[trigger] id[i]) || is_separator(id[i])
    &&& !is_separator(id[0])
    &&& !is_separator(id[id.len() - 1])
    &&& forall|i: int|
        0 < i < id.len() ==> !(is_separator(#[trigger] id[i]) && is_separator(id[i - 1]))
}

/// Whether `id` may name an account.
pub fn is_valid(id: &str) -> (ok: bool)
    ensures
        ok == valid_account_id(id@),
{
    if !id.is_ascii() {
        return false;
    }
    let bytes = id.as_bytes();
    let n: usize = bytes.len();
    proof {
        assert forall|j: int| 0 <= j < n implies #[trigger] bytes@[j] == id@[j] as u8 && '\0'
            <= id@[j] <= '\u{7f}' by {}
    }
    if n < MIN_LEN || n > MAX_LEN {
        return false;
    }
    let mut last_is_separator: bool = true;
    let mut i: usize = 0;
    while i < n
        invariant
            i <= n,
            n == id@.len(),
            n == bytes@.len(),
            MIN_LEN <= n <= MAX_LEN,
            forall|j: int|
                0 <= j < n ==> #[trigger] bytes@[j] == id@[j] as u8 && '\0' <= id@[j]
                    <= '\u{7f}',
            forall|j: int|
                0 <= j < i ==> is_letter_or_digit(#[trigger] id@[j]) || is_separator(id@[j]),
            i == 0 ==> last_is_separator,
            i > 0 ==> last_is_separator == is_separator(id@[i - 1]),
            i > 0 ==> !is_separator(id@[0]),
            forall|j: int|
                0 < j < i ==> !(is_separator(#[trigger] id@[j]) && is_separator(id@[j - 1])),
        decreases n - i,
    {
        let b: u8 = bytes[i];
        // In ASCII: '-' is 45, '_' is 95, '.' is 46; 'a' to 'z' are 97 to 122,
        // '0' to '9' are 48 to 57.
        let separator: bool = b == 45 || b == 95 || b == 46;
        let letter_or_digit: bool = (97 <= b && b <= 122) || (48 <= b && b <= 57);
        if !separator && !letter_or_digit {
            return false;
        }
        if separator && last_is_separator {
            return false;
        }
        last_is_separator = separator;
        i = i + 1;
    }
    !last_is_separator
}

/// The identifier of an account.
#[derive(Debug)]
pub struct AccountId {
    id: String,
}

impl View for AccountId {
    type V = Seq<char>;

    closed spec fn view(&self) -> Seq<char> {
        self.id@
    }
}

impl AccountId {
    #[verifier::type_invariant]
    closed spec fn well_named(self) -> bool {
        valid_account_id(self.id@)
    }

    /// The account that `id` names, if it may name one.
    pub fn new(id: String) -> (account: Option<AccountId>)
        ensures
            account is Some <==> valid_account_id(id@),
            account is Some ==> account->0@ == id@,
    {
        if is_valid(id.as_str()) {
            Some(AccountId { id })
        } else {
            None
        }
    }

    /// The identifier as text.
    pub fn as_str(&self) -> (id: &str)
        ensures
            id@ == self@,
            valid_account_id(id@),
    {
        proof {
            use_type_invariant(self);
        }
        self.id.as_str()
    }
}

impl Clone for AccountId {
    fn clone(&self) -> (account: AccountId)
        ensures
            account@ == self@,
    {
        proof {
            use_type_invariant(self);
        }
        AccountId { id: self.id.clone() }
    }
}

impl PartialEq for AccountId {
    fn eq(&self, other: &AccountId) -> (same: bool) {
        self.id == other.id
    }
}

impl Eq for AccountId {

}

impl PartialEqSpecImpl for AccountId {
    open spec fn obeys_eq_spec() -> bool {
        true
    }

    open spec fn eq_spec(&self, other: &AccountId) -> bool {
        self@ == other@
    }
}

} // verus!
