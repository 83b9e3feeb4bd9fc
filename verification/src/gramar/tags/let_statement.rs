use vstd::prelude::*;

use crate::gramar::tag::{
    JackAstTagLabel, JackAstTagNode, JackAstTagNodeV, JackAstTagResult, JackAstTagResultV,
};
use crate::tokens::{JackKeyword, JackSymbol, JackToken, JackTokenV};

use super::bracket::{bracket_new, BracketTag, BracketTagKind};
use super::expression::{ExpressionTag, ExpressionTagStage};

verus! {

/// How far a `let` statement has got.
#[derive(Debug, PartialEq, Eq, Structural, Clone, Copy)]
pub enum LetTagStage {
    AwaitLet,
    AwaitIdent,
    AwaitEq,
    AwaitExpr,
    AwaitSemicolon,
    Terminate,
}

/// The rule `let name ([ expression ])? = expression ;`.
pub struct LetTag {
    stage: LetTagStage,
}

impl View for LetTag {
    type V = LetTagStage;

    closed spec fn view(&self) -> LetTagStage {
        self.stage
    }
}

impl Default for LetTag {
    fn default() -> (r: Self)
        ensures
            r@ == LetTagStage::AwaitLet,
    {
        LetTag { stage: LetTagStage::AwaitLet }
    }
}

/// One step of the `let` rule.
pub open spec fn let_feed(s: LetTagStage, t: JackTokenV) -> (LetTagStage, JackAstTagResultV) {
    match (t, s) {
        (_, LetTagStage::Terminate) => (s, JackAstTagResultV::Finish),
        (JackTokenV::Symbol(JackSymbol::Semicolon), LetTagStage::AwaitSemicolon) => (
            LetTagStage::Terminate,
            JackAstTagResultV::Push,
        ),
        (_, LetTagStage::AwaitExpr) => (
            LetTagStage::AwaitSemicolon,
            JackAstTagResultV::Move(JackAstTagNodeV::Expression(ExpressionTagStage::AwaitTerm)),
        ),
        (JackTokenV::Symbol(JackSymbol::Eq), LetTagStage::AwaitEq) => (
            LetTagStage::AwaitExpr,
            JackAstTagResultV::Push,
        ),
        (JackTokenV::Symbol(JackSymbol::OpenSquareBracket), LetTagStage::AwaitEq) => (
            LetTagStage::AwaitEq,
            JackAstTagResultV::Move(JackAstTagNodeV::Bracket(bracket_new(BracketTagKind::Square))),
        ),
        (JackTokenV::Ident(_), LetTagStage::AwaitIdent) => (
            LetTagStage::AwaitEq,
            JackAstTagResultV::Push,
        ),
        (JackTokenV::Keyword(JackKeyword::Let), LetTagStage::AwaitLet) => (
            LetTagStage::AwaitIdent,
            JackAstTagResultV::Push,
        ),
        _ => (s, JackAstTagResultV::Error),
    }
}

impl LetTag {
    pub fn get_label(&self) -> (r: JackAstTagLabel)
        ensures
            r == JackAstTagLabel::Let,
    {
        JackAstTagLabel::Let
    }

    /// Complete once its semicolon is read.
    pub fn is_consistent(&self) -> (r: bool)
        ensures
            r == (self@ == LetTagStage::Terminate),
    {
        self.stage == LetTagStage::Terminate
    }

    pub fn feed_token(&mut self, token: &JackToken) -> (r: JackAstTagResult)
        ensures
            (final(self)@, r@) == let_feed(old(self)@, token@),
    {
        match (token, &self.stage) {
            (_, LetTagStage::Terminate) => JackAstTagResult::Finish,
            (JackToken::Symbol(JackSymbol::Semicolon), LetTagStage::AwaitSemicolon) => {
                self.stage = LetTagStage::Terminate;
                JackAstTagResult::Push
            },
            (_, LetTagStage::AwaitExpr) => {
                let expression = ExpressionTag::default();
                self.stage = LetTagStage::AwaitSemicolon;
                JackAstTagResult::Move(JackAstTagNode::Expression(expression))
            },
            (JackToken::Symbol(JackSymbol::Eq), LetTagStage::AwaitEq) => {
                self.stage = LetTagStage::AwaitExpr;
                JackAstTagResult::Push
            },
            (JackToken::Symbol(JackSymbol::OpenSquareBracket), LetTagStage::AwaitEq) => {
                self.stage = LetTagStage::AwaitEq;
                let expression = BracketTag::new(BracketTagKind::Square);
                JackAstTagResult::Move(JackAstTagNode::Bracket(expression))
            },
            (JackToken::Ident(_), LetTagStage::AwaitIdent) => {
                self.stage = LetTagStage::AwaitEq;
                JackAstTagResult::Push
            },
            (JackToken::Keyword(JackKeyword::Let), LetTagStage::AwaitLet) => {
                self.stage = LetTagStage::AwaitIdent;
                JackAstTagResult::Push
            },
            _ => JackAstTagResult::Error,
        }
    }
}

/// The stage and the results of feeding tokens one after the other.
pub open spec fn let_run(s: LetTagStage, ts: Seq<JackTokenV>) -> (LetTagStage, Seq<JackAstTagResultV>)
    decreases ts.len(),
{
    if ts.len() == 0 {
        (s, seq![])
    } else {
        let (s1, r) = let_feed(s, ts[0]);
        let (s2, rs) = let_run(s1, ts.drop_first());
        (s2, seq![r] + rs)
    }
}

/// The tokens that a `let` statement shows its own rule: `let`, the name,
/// `[` when the name is indexed (the index itself goes to a bracket rule),
/// `=`, the first token of the value (the value goes to an expression rule)
/// and `;`.
pub open spec fn let_statement_tokens(name: Seq<u8>, indexed: bool, first: JackTokenV) -> Seq<JackTokenV> {
    seq![JackTokenV::Keyword(JackKeyword::Let), JackTokenV::Ident(name)] + (if indexed {
        seq![JackTokenV::Symbol(JackSymbol::OpenSquareBracket)]
    } else {
        Seq::<JackTokenV>::empty()
    }) + seq![JackTokenV::Symbol(JackSymbol::Eq), first, JackTokenV::Symbol(JackSymbol::Semicolon)]
}

/// The `let` rule accepts every statement `let name ([expression])? =
/// expression ;`: fed its tokens from the start, it reports no error, hands
/// the index to a square bracket rule and the value, from its first token
/// on, to an expression rule, and is complete after the `;`.
pub proof fn lemma_let_accepts(name: Seq<u8>, indexed: bool, first: JackTokenV)
    ensures
        ({
            let ts = let_statement_tokens(name, indexed, first);
            let (s, rs) = let_run(LetTagStage::AwaitLet, ts);
            &&& rs.len() == ts.len()
            &&& forall|i: int| 0 <= i < rs.len() ==> !(#[trigger] rs[i] is Error)
            &&& s == LetTagStage::Terminate
            &&& rs[ts.len() - 2] == JackAstTagResultV::Move(
                JackAstTagNodeV::Expression(ExpressionTagStage::AwaitTerm),
            )
            &&& indexed ==> rs[2] == JackAstTagResultV::Move(
                JackAstTagNodeV::Bracket(bracket_new(BracketTagKind::Square)),
            )
            &&& rs[ts.len() - 1] == JackAstTagResultV::Push
        }),
{
    let ts = let_statement_tokens(name, indexed, first);
    reveal_with_fuel(let_run, 8);
    let t1 = ts.drop_first();
    let t2 = t1.drop_first();
    let t3 = t2.drop_first();
    let t4 = t3.drop_first();
    let t5 = t4.drop_first();
    let t6 = t5.drop_first();
    if indexed {
        assert(ts =~= seq![
            JackTokenV::Keyword(JackKeyword::Let),
            JackTokenV::Ident(name),
            JackTokenV::Symbol(JackSymbol::OpenSquareBracket),
            JackTokenV::Symbol(JackSymbol::Eq),
            first,
            JackTokenV::Symbol(JackSymbol::Semicolon),
        ]);
        assert(t6.len() == 0);
    } else {
        assert(ts =~= seq![
            JackTokenV::Keyword(JackKeyword::Let),
            JackTokenV::Ident(name),
            JackTokenV::Symbol(JackSymbol::Eq),
            first,
            JackTokenV::Symbol(JackSymbol::Semicolon),
        ]);
        assert(t5.len() == 0);
    }
}

} // verus!
