//! Round-robin rotation over a pool of upstream credentials.

use vstd::prelude::*;
use crate::types::views;
use vstd::arithmetic::div_mod::lemma_add_mod_noop;
use vstd::arithmetic::div_mod::lemma_small_mod;

verus! {

/// The mathematical content of a credential pool: the tokens in configuration order and
/// the position of the token that the next draw hands out.
pub struct RotatorView {
    pub tokens: Seq<Seq<char>>,
    pub cursor: nat,
}

impl RotatorView {
    /// The cursor points into the pool, or rests at zero while the pool is empty.
    pub open spec fn valid(self) -> bool {
        if self.tokens.len() == 0 {
            self.cursor == 0
        } else {
            self.cursor < self.tokens.len()
        }
    }

    /// A pool right after it was configured with `tokens`.
    pub open spec fn configured(tokens: Seq<Seq<char>>) -> RotatorView {
        RotatorView { tokens, cursor: 0 }
    }

    /// What a draw hands out: nothing from an empty pool, else the token under the cursor.
    pub open spec fn issue(self) -> Option<Seq<char>> {
        if self.tokens.len() == 0 {
            None
        } else {
            Some(self.tokens[(self.cursor % self.tokens.len()) as int])
        }
    }

    /// The pool after one draw: the cursor moves on by one and wraps at the end.
    pub open spec fn advance(self) -> RotatorView {
        if self.tokens.len() == 0 {
            self
        } else {
            RotatorView { tokens: self.tokens, cursor: (self.cursor + 1) % self.tokens.len() }
        }
    }

    /// The pool after `draws` draws.
    pub open spec fn advance_by(self, draws: nat) -> RotatorView
        decreases draws,
    {
        if draws == 0 {
            self
        } else {
            self.advance_by((draws - 1) as nat).advance()
        }
    }

    /// What the draw that follows `earlier` draws hands out.
    pub open spec fn issue_after(self, earlier: nat) -> Option<Seq<char>> {
        self.advance_by(earlier).issue()
    }
}

/// A pool of upstream credentials with a rotation cursor.
///
/// Rotation is positional: a credential that was handed out is not reserved, and may be
/// in use by several turns at once.
pub struct CredentialRotator {
    tokens: Vec<String>,
    cursor: usize,
}

impl View for CredentialRotator {
    type V = RotatorView;

    closed spec fn view(&self) -> RotatorView {
        RotatorView { tokens: views(self.tokens@), cursor: self.cursor as nat }
    }
}

impl CredentialRotator {
    #[verifier::type_invariant]
    spec fn well_formed(self) -> bool {
        self@.valid()
    }

    /// An empty pool.
    pub fn new() -> (pool: CredentialRotator)
        ensures
            pool@ == RotatorView::configured(Seq::empty()),
    {
        let pool = CredentialRotator { tokens: Vec::new(), cursor: 0 };
        assert(pool@.tokens =~= Seq::empty());
        pool
    }

    /// Replaces the pool with `tokens` and puts the cursor back at the first of them.
    pub fn configure(&mut self, tokens: Vec<String>)
        ensures
            final(self)@ == RotatorView::configured(views(tokens@)),
    {
        self.cursor = 0;
        self.tokens = tokens;
    }

    /// Hands out the credential under the cursor and moves the cursor on, in one step.
    /// An empty pool hands out nothing and stays as it is.
    pub fn next(&mut self) -> (token: Option<String>)
        ensures
            old(self)@.valid(),
            final(self)@.valid(),
            final(self)@ == old(self)@.advance(),
            match token {
                Some(t) => old(self)@.issue() == Some(t@),
                None => old(self)@.issue() is None,
            },
    {
        proof {
            use_type_invariant(&*self);
        }
        let len = self.tokens.len();
        if len == 0 {
            return None;
        }
        let token = self.tokens[self.cursor].clone();
        proof {
            lemma_small_mod(self.cursor as nat, len as nat);
            assert(views(self.tokens@)[self.cursor as int] == token@);
        }
        self.cursor = (self.cursor + 1) % len;
        Some(token)
    }

    /// How many credentials the pool holds.
    pub fn len(&self) -> (n: usize)
        ensures
            n == self@.tokens.len(),
    {
        self.tokens.len()
    }
}

/// The cursor stays inside the pool: a pool is valid right after it was configured,
/// and a draw from a valid pool leaves it valid and holding the same credentials.
pub proof fn lemma_cursor_stays_in_pool(tokens: Seq<Seq<char>>, pool: RotatorView)
    requires
        pool.valid(),
    ensures
        RotatorView::configured(tokens).valid(),
        pool.advance().valid(),
        pool.advance().tokens == pool.tokens,
{
}

/// From a pool of `n >= 1` credentials, as it stands after configuration, `n` draws in a
/// row hand out each credential once, in configuration order, and the draw after them
/// hands out the first again; in general the draw that follows `k` others hands out the
/// credential at position `k` modulo `n`.
pub proof fn lemma_rotation_covers_pool_in_order(tokens: Seq<Seq<char>>, k: nat)
    requires
        tokens.len() >= 1,
    ensures
        RotatorView::configured(tokens).issue_after(k) == Some(
            tokens[(k % tokens.len()) as int],
        ),
        k < tokens.len() ==> RotatorView::configured(tokens).issue_after(k) == Some(
            tokens[k as int],
        ),
        RotatorView::configured(tokens).issue_after(tokens.len()) == Some(tokens[0]),
{
    let n = tokens.len();
    lemma_cursor_after(tokens, k);
    lemma_cursor_after(tokens, n);
    lemma_small_mod(k % n, n);
    if k < n {
        lemma_small_mod(k, n);
    }
    assert(n % n == 0) by (nonlinear_arith)
        requires
            n >= 1,
    ;
    lemma_small_mod(0, n);
}

proof fn lemma_cursor_after(tokens: Seq<Seq<char>>, k: nat)
    requires
        tokens.len() >= 1,
    ensures
        RotatorView::configured(tokens).advance_by(k) == (RotatorView {
            tokens,
            cursor: k % tokens.len(),
        }),
    decreases k,
{
    let n = tokens.len();
    if k == 0 {
        lemma_small_mod(0, n);
    } else {
        lemma_cursor_after(tokens, (k - 1) as nat);
        lemma_add_mod_noop(k - 1, 1, n as int);
        if n == 1 {
            assert((k - 1) % 1 == 0 && k % 1 == 0 && 1nat % 1 == 0);
        } else {
            lemma_small_mod(1, n);
        }
    }
}

/// An empty pool hands out nothing, however often it is asked.
pub proof fn lemma_empty_pool_never_issues(pool: RotatorView, k: nat)
    requires
        pool.tokens.len() == 0,
    ensures
        pool.advance_by(k) == pool,
        pool.issue_after(k) is None,
    decreases k,
{
    if k > 0 {
        lemma_empty_pool_never_issues(pool, (k - 1) as nat);
    }
}

/// The first draw after the pool was configured with the single credential `token` hands
/// out `token`.
pub proof fn lemma_single_token_is_issued_first(token: Seq<char>)
    ensures
        RotatorView::configured(seq![token]).issue() == Some(token),
{
}

} // verus!
