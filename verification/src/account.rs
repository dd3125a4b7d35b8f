//! Accounts: a root category and a path of free-form segments.
//!
//! An account name is a colon-separated list of capitalized words beginning
//! with one of the five acceptable account types, such as
//! `Assets:US:BofA:Checking` or `Income:US:Acme:Salary`. Segment
//! well-formedness is validated upstream by the parser and is not re-checked
//! here.

use vstd::prelude::*;
use vstd::string::StringExecFns;

verus! {

/// The five root categories of a ledger account.
#[derive(Clone, Copy, Debug, PartialEq, Eq, Hash, Structural)]
pub enum AccountType {
    Assets,
    Liabilities,
    Equity,
    Income,
    Expenses,
}

/// The canonical name of an account type, used as the first path segment.
pub open spec fn spec_type_name(t: AccountType) -> Seq<char> {
    match t {
        AccountType::Assets => "Assets"@,
        AccountType::Liabilities => "Liabilities"@,
        AccountType::Equity => "Equity"@,
        AccountType::Income => "Income"@,
        AccountType::Expenses => "Expenses"@,
    }
}

impl AccountType {
    /// The canonical textual name of this account type.
    pub fn default_name(&self) -> (r: &str)
        ensures
            r@ == spec_type_name(*self),
    {
        match self {
            AccountType::Assets => "Assets",
            AccountType::Liabilities => "Liabilities",
            AccountType::Equity => "Equity",
            AccountType::Income => "Income",
            AccountType::Expenses => "Expenses",
        }
    }
}

/// Mathematical model of an [`Account`].
#[verifier::ext_equal]
pub ghost struct AccountV {
    pub ty: AccountType,
    pub parts: Seq<Seq<char>>,
}

/// Represents an account: a typed path made of a root category and an
/// ordered sequence of free-form segments.
#[derive(Debug, Hash, Eq)]
pub struct Account {
    /// Type of the account.
    pub ty: AccountType,
    /// Optional parts of the account following the account type.
    pub parts: Vec<String>,
}

impl View for Account {
    type V = AccountV;

    open spec fn view(&self) -> AccountV {
        AccountV { ty: self.ty, parts: self.parts.deep_view() }
    }
}

/// Element-wise equality of two string vectors.
pub fn string_vec_eq(a: &Vec<String>, b: &Vec<String>) -> (r: bool)
    ensures
        r == (a.deep_view() == b.deep_view()),
{
    proof {
        assert(a.deep_view().len() == a@.len());
        assert(b.deep_view().len() == b@.len());
    }
    if a.len() != b.len() {
        return false;
    }
    let n = a.len();
    for i in 0..n
        invariant
            n == a.len() == b.len(),
            forall|k: int| 0 <= k < i ==> a.deep_view()[k] == b.deep_view()[k],
    {
        if !a[i].eq(&b[i]) {
            proof {
                assert(a.deep_view()[i as int] == a@[i as int]@);
                assert(b.deep_view()[i as int] == b@[i as int]@);
            }
            return false;
        }
        proof {
            assert(a.deep_view()[i as int] == a@[i as int]@);
            assert(b.deep_view()[i as int] == b@[i as int]@);
        }
    }
    proof {
        assert(a.deep_view() =~= b.deep_view());
    }
    true
}

/// Clone a vector of strings, preserving its model.
pub fn clone_string_vec(v: &Vec<String>) -> (r: Vec<String>)
    ensures
        r.deep_view() == v.deep_view(),
{
    let mut r: Vec<String> = Vec::new();
    let n = v.len();
    for i in 0..n
        invariant
            n == v.len(),
            r.len() == i,
            forall|k: int| 0 <= k < i ==> r.deep_view()[k] == v.deep_view()[k],
    {
        r.push(v[i].clone());
    }
    proof {
        assert(r.deep_view() =~= v.deep_view());
    }
    r
}

impl PartialEq for Account {
    /// Two accounts are equal iff their types and their segment paths are
    /// equal element-wise.
    fn eq(&self, other: &Account) -> (r: bool) {
        self.ty == other.ty && string_vec_eq(&self.parts, &other.parts)
    }
}

impl vstd::std_specs::cmp::PartialEqSpecImpl for Account {
    open spec fn obeys_eq_spec() -> bool {
        true
    }

    open spec fn eq_spec(&self, other: &Account) -> bool {
        self@ == other@
    }
}

impl Clone for Account {
    fn clone(&self) -> (r: Self)
        ensures
            r@ == self@,
    {
        Account { ty: self.ty, parts: clone_string_vec(&self.parts) }
    }
}

/// The rendering of account segments: each segment preceded by the single
/// colon separator of the textual ledger convention.
pub open spec fn spec_render_parts(parts: Seq<Seq<char>>) -> Seq<char>
    decreases parts.len(),
{
    if parts.len() == 0 {
        Seq::empty()
    } else {
        spec_render_parts(parts.drop_last()) + seq![':'] + parts.last()
    }
}

/// The textual form of an account: the canonical type name followed by each
/// segment, each preceded by a single colon.
pub open spec fn spec_render_account(a: AccountV) -> Seq<char> {
    spec_type_name(a.ty) + spec_render_parts(a.parts)
}

impl Account {
    pub fn new(ty: AccountType, parts: Vec<String>) -> (r: Account)
        ensures
            r == (Account { ty, parts }),
    {
        Account { ty, parts }
    }

    /// Emit the account in the ledger's textual convention, e.g.
    /// `Income:Acme:Salary`.
    pub fn render(&self) -> (r: String)
        ensures
            r@ == spec_render_account(self@),
    {
        proof {
            reveal_strlit(":");
        }
        let mut s = String::from_str(self.ty.default_name());
        let n = self.parts.len();
        for i in 0..n
            invariant
                n == self.parts.len(),
                s@ == spec_type_name(self.ty) + spec_render_parts(
                    self.parts.deep_view().take(i as int),
                ),
        {
            s.append(":");
            s.append(self.parts[i].as_str());
            proof {
                reveal_strlit(":");
                let pv = self.parts.deep_view();
                assert(pv[i as int] == self.parts@[i as int]@);
                assert(pv.take(i + 1).drop_last() =~= pv.take(i as int));
                assert(pv.take(i + 1).last() == pv[i as int]);
                assert(s@ =~= spec_type_name(self.ty) + spec_render_parts(pv.take(i + 1)));
            }
        }
        proof {
            assert(self.parts.deep_view().take(n as int) =~= self.parts.deep_view());
            assert(s@ =~= spec_render_account(self@));
        }
        s
    }
}

} // verus!
