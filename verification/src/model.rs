//! The ledger data model: metadata, postings, transactions, directives and
//! the ledger itself.

use vstd::prelude::*;

use crate::account::{Account, AccountV};
use crate::amount::{Amount, AmountV, IncompleteAmount, IncompleteAmountV};
use crate::date::Date;

verus! {

/// A metadata map attached to a posting or a transaction. Insertion order is
/// irrelevant to the pipeline; entries pass through unchanged.
#[derive(Debug)]
pub struct Meta {
    pub entries: Vec<(String, String)>,
}

impl View for Meta {
    type V = Seq<(Seq<char>, Seq<char>)>;

    open spec fn view(&self) -> Seq<(Seq<char>, Seq<char>)> {
        self.entries.deep_view()
    }
}

impl DeepView for Meta {
    type V = Seq<(Seq<char>, Seq<char>)>;

    open spec fn deep_view(&self) -> Seq<(Seq<char>, Seq<char>)> {
        self@
    }
}

impl Meta {
    /// An empty metadata map.
    pub fn new() -> (r: Meta)
        ensures
            r@ == Seq::<(Seq<char>, Seq<char>)>::empty(),
    {
        let r = Meta { entries: Vec::new() };
        proof {
            assert(r@ =~= Seq::<(Seq<char>, Seq<char>)>::empty());
        }
        r
    }
}

impl DeepView for Amount {
    type V = AmountV;

    open spec fn deep_view(&self) -> AmountV {
        self@
    }
}

impl DeepView for IncompleteAmount {
    type V = IncompleteAmountV;

    open spec fn deep_view(&self) -> IncompleteAmountV {
        self@
    }
}

impl DeepView for Account {
    type V = AccountV;

    open spec fn deep_view(&self) -> AccountV {
        self@
    }
}

/// Mathematical model of a [`Posting`].
#[verifier::ext_equal]
pub ghost struct PostingV {
    pub account: AccountV,
    pub units: IncompleteAmountV,
    pub cost: Option<AmountV>,
    pub price: Option<AmountV>,
    pub flag: Option<char>,
    pub meta: Seq<(Seq<char>, Seq<char>)>,
}

/// One leg of a transaction: an account, an amount (possibly incomplete),
/// optional cost and price annotations, an optional flag and a metadata map.
#[derive(Debug)]
pub struct Posting {
    pub account: Account,
    pub units: IncompleteAmount,
    pub cost: Option<Amount>,
    pub price: Option<Amount>,
    pub flag: Option<char>,
    pub meta: Meta,
}

impl View for Posting {
    type V = PostingV;

    open spec fn view(&self) -> PostingV {
        PostingV {
            account: self.account@,
            units: self.units@,
            cost: self.cost.deep_view(),
            price: self.price.deep_view(),
            flag: self.flag,
            meta: self.meta@,
        }
    }
}

impl DeepView for Posting {
    type V = PostingV;

    open spec fn deep_view(&self) -> PostingV {
        self@
    }
}

/// Mathematical model of a [`Transaction`].
#[verifier::ext_equal]
pub ghost struct TransactionV {
    pub date: Date,
    pub flag: Option<char>,
    pub payee: Option<Seq<char>>,
    pub narration: Seq<char>,
    pub tags: Seq<Seq<char>>,
    pub meta: Seq<(Seq<char>, Seq<char>)>,
    pub postings: Seq<PostingV>,
}

/// A dated, narrated group of postings.
#[derive(Debug)]
pub struct Transaction {
    pub date: Date,
    pub flag: Option<char>,
    pub payee: Option<String>,
    pub narration: String,
    pub tags: Vec<String>,
    pub meta: Meta,
    pub postings: Vec<Posting>,
}

impl View for Transaction {
    type V = TransactionV;

    open spec fn view(&self) -> TransactionV {
        TransactionV {
            date: self.date,
            flag: self.flag,
            payee: self.payee.deep_view(),
            narration: self.narration@,
            tags: self.tags.deep_view(),
            meta: self.meta@,
            postings: self.postings.deep_view(),
        }
    }
}

impl DeepView for Transaction {
    type V = TransactionV;

    open spec fn deep_view(&self) -> TransactionV {
        self@
    }
}

/// Mathematical model of a [`Directive`].
#[verifier::ext_equal]
pub ghost enum DirectiveV {
    Transaction(TransactionV),
    Other,
}

/// One statement of a ledger. Only the `Transaction` variant is processed by
/// the rewrite pipeline; every other statement kind is opaque to this core
/// and passes through untouched.
#[derive(Debug)]
pub enum Directive {
    Transaction(Transaction),
    /// A statement of any other kind (open, close, balance assertion, ...),
    /// inert by default.
    Other,
}

impl View for Directive {
    type V = DirectiveV;

    open spec fn view(&self) -> DirectiveV {
        match self {
            Directive::Transaction(t) => DirectiveV::Transaction(t@),
            Directive::Other => DirectiveV::Other,
        }
    }
}

impl DeepView for Directive {
    type V = DirectiveV;

    open spec fn deep_view(&self) -> DirectiveV {
        self@
    }
}

/// An ordered sequence of directives, as produced by the external parser.
#[derive(Debug)]
pub struct Ledger {
    pub directives: Vec<Directive>,
}

impl View for Ledger {
    type V = Seq<DirectiveV>;

    open spec fn view(&self) -> Seq<DirectiveV> {
        self.directives.deep_view()
    }
}

} // verus!
