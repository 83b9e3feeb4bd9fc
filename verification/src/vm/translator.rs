use vstd::prelude::*;

use crate::hack::instruction::VariableFactory;

use super::context::TranslateOpts;
use super::instructions::{AsmFunctionInstruction, AsmInstructionPayload, FunctionMetadata};
use super::lexer::AsmToken;
use super::memory::{
    add_line, at_number, at_number_line, at_sp, at_sp_line, d_eq_a, d_eq_a_line, m_eq_d,
    m_eq_d_line, views_of,
};
use super::translate::{
    call_lines, draws_labels, is_comment, payload_lines, payload_ok, translate_payload,
    variable_name,
};

verus! {

/// The most entries the instruction buffer holds.
pub const TRANSLATOR_INSTRUCTIONS_CAPACITY: usize = 2048;

/// The most commands waiting to be translated.
pub const TRANSLATOR_TOKEN_CAPACITY: usize = 64;

/// Whether a line is written under the options: comments only when asked.
pub open spec fn line_needed(l: Seq<u8>, comments: bool) -> bool {
    comments || !is_comment(l)
}

/// The first position at or after `p` of a line that is written, or the
/// end.
pub open spec fn next_needed(s: Seq<Seq<u8>>, p: int, comments: bool) -> int
    decreases s.len() - p,
{
    if p < 0 || p >= s.len() {
        s.len() as int
    } else if line_needed(s[p], comments) {
        p
    } else {
        next_needed(s, p + 1, comments)
    }
}

/// What writing at most `chunk` lines from position `p` gives: each line
/// that is written, followed by a line feed, and the position reached.
/// Lines that are not written are passed over on the way; once no written
/// line is left, the position is the end.
pub open spec fn symbols_from(s: Seq<Seq<u8>>, p: int, comments: bool, chunk: nat) -> (Seq<u8>, int)
    decreases chunk,
{
    if chunk == 0 {
        (seq![], p)
    } else {
        let j = next_needed(s, p, comments);
        if j >= s.len() {
            (seq![], s.len() as int)
        } else {
            let rest = symbols_from(s, j + 1, comments, (chunk - 1) as nat);
            (s[j] + seq![10u8] + rest.0, rest.1)
        }
    }
}

/// The labels that translating the commands draws: two per comparison.
pub open spec fn labels_drawn(ts: Seq<AsmToken>) -> int
    decreases ts.len(),
{
    if ts.len() == 0 {
        0
    } else {
        labels_drawn(ts.drop_last()) + if draws_labels(ts.last().payload) {
            2int
        } else {
            0int
        }
    }
}

/// The lines of commands in order; `prefix` names statics and return
/// labels, and the comparisons draw labels numbered on from `n`.
pub open spec fn tokens_lines(ts: Seq<AsmToken>, prefix: Seq<u8>, n: int) -> Seq<Seq<u8>>
    decreases ts.len(),
{
    if ts.len() == 0 {
        seq![]
    } else {
        let before = ts.drop_last();
        let k = n + labels_drawn(before);
        tokens_lines(before, prefix, n) + payload_lines(
            ts.last().payload,
            prefix,
            ts.last().instruction as nat,
            variable_name(prefix, k),
            variable_name(prefix, k + 1),
        )
    }
}

proof fn lemma_labels_drawn_grows(ts: Seq<AsmToken>, i: int)
    requires
        0 <= i <= ts.len(),
    ensures
        0 <= labels_drawn(ts.subrange(0, i)) <= labels_drawn(ts),
    decreases ts.len(),
{
    if i < ts.len() {
        assert(ts.drop_last().subrange(0, i) =~= ts.subrange(0, i));
        lemma_labels_drawn_grows(ts.drop_last(), i);
    } else {
        assert(ts.subrange(0, i) =~= ts);
        lemma_labels_drawn_nonneg(ts);
    }
}

proof fn lemma_labels_drawn_nonneg(ts: Seq<AsmToken>)
    ensures
        labels_drawn(ts) >= 0,
    decreases ts.len(),
{
    if ts.len() > 0 {
        lemma_labels_drawn_nonneg(ts.drop_last());
    }
}

/// Sets the stack pointer to 256: `@256`, `D=A`, `@SP`, `M=D`.
pub open spec fn init_sp_lines() -> Seq<Seq<u8>> {
    seq![at_number(256), d_eq_a(), at_sp(), m_eq_d()]
}

/// `Sys.init`
pub open spec fn sys_init_name() -> Seq<u8> {
    seq![83u8, 121u8, 115u8, 46u8, 105u8, 110u8, 105u8, 116u8]
}

/// `// Finish init`
pub open spec fn finish_init_comment() -> Seq<u8> {
    seq![47u8, 47u8, 32u8, 70u8, 105u8, 110u8, 105u8, 115u8, 104u8, 32u8, 105u8, 110u8, 105u8, 116u8]
}

proof fn lemma_tokens_lines_push(ts: Seq<AsmToken>, t: AsmToken, prefix: Seq<u8>, n: int)
    ensures
        tokens_lines(ts.push(t), prefix, n) == tokens_lines(ts, prefix, n) + payload_lines(
            t.payload,
            prefix,
            t.instruction as nat,
            variable_name(prefix, n + labels_drawn(ts)),
            variable_name(prefix, n + labels_drawn(ts) + 1),
        ),
        labels_drawn(ts.push(t)) == labels_drawn(ts) + if draws_labels(t.payload) {
            2int
        } else {
            0int
        },
{
    assert(ts.push(t).drop_last() =~= ts);
}

/// A buffer that translates VM commands into Hack lines and hands the
/// lines out in chunks: commands wait in a queue, their lines gather in
/// entries (one per instruction, block or translated command), and the
/// lines are written from a position on, comments left out when the
/// options say so.
pub struct Translator {
    lines: Vec<Vec<u8>>,
    entries: usize,
    cursor_down: usize,
    tokens: Vec<AsmToken>,
    translate_opts: TranslateOpts,
}

impl Translator {
    /// The lines gathered.
    pub closed spec fn lines(&self) -> Seq<Seq<u8>> {
        views_of(self.lines@)
    }

    /// The number of entries gathered.
    pub closed spec fn entries(&self) -> nat {
        self.entries as nat
    }

    /// The position of the next line to write.
    pub closed spec fn position(&self) -> int {
        self.cursor_down as int
    }

    /// The commands waiting to be translated.
    pub closed spec fn pending(&self) -> Seq<AsmToken> {
        self.tokens@
    }

    /// Whether comments are written.
    pub closed spec fn comments(&self) -> bool {
        self.translate_opts.comments
    }

    pub closed spec fn wf(&self) -> bool {
        &&& self.cursor_down <= self.lines@.len()
        &&& self.entries <= TRANSLATOR_INSTRUCTIONS_CAPACITY
        &&& self.tokens@.len() <= TRANSLATOR_TOKEN_CAPACITY
    }

    /// An empty translator that writes comments.
    pub fn new() -> (r: Self)
        ensures
            r.wf(),
            r.lines() == Seq::<Seq<u8>>::empty(),
            r.entries() == 0,
            r.position() == 0,
            r.pending() == Seq::<AsmToken>::empty(),
            r.comments(),
    {
        Self::new_with_opts(TranslateOpts::new())
    }

    /// An empty translator under `opts`.
    pub fn new_with_opts(opts: TranslateOpts) -> (r: Self)
        ensures
            r.wf(),
            r.lines() == Seq::<Seq<u8>>::empty(),
            r.entries() == 0,
            r.position() == 0,
            r.pending() == Seq::<AsmToken>::empty(),
            r.comments() == opts.comments,
    {
        let r = Self {
            lines: Vec::new(),
            entries: 0,
            cursor_down: 0,
            tokens: Vec::new(),
            translate_opts: opts,
        };
        assert(r.lines() =~= Seq::<Seq<u8>>::empty());
        r
    }

    /// Drops the gathered lines; the queue and the options stay. The write
    /// position goes back to the start, also when the last write stopped
    /// inside a block, so the next lines gathered are all written.
    pub fn reset(&mut self)
        requires
            old(self).wf(),
        ensures
            final(self).wf(),
            final(self).lines() == Seq::<Seq<u8>>::empty(),
            final(self).entries() == 0,
            final(self).position() == 0,
            final(self).pending() == old(self).pending(),
            final(self).comments() == old(self).comments(),
    {
        self.lines = Vec::new();
        self.entries = 0;
        self.cursor_down = 0;
        assert(self.lines() =~= Seq::<Seq<u8>>::empty());
    }

    /// How many more commands the queue takes.
    pub fn check_free_space(&self) -> (r: usize)
        requires
            self.wf(),
        ensures
            r == TRANSLATOR_TOKEN_CAPACITY - self.pending().len(),
    {
        TRANSLATOR_TOKEN_CAPACITY - self.tokens.len()
    }

    /// Queues a command.
    pub fn save_token(&mut self, token: AsmToken)
        requires
            old(self).wf(),
            old(self).pending().len() < TRANSLATOR_TOKEN_CAPACITY,
        ensures
            final(self).wf(),
            final(self).pending() == old(self).pending().push(token),
            final(self).lines() == old(self).lines(),
            final(self).entries() == old(self).entries(),
            final(self).position() == old(self).position(),
            final(self).comments() == old(self).comments(),
    {
        self.tokens.push(token);
    }

    /// Gathers one line as an entry. A comment is dropped when comments
    /// are not written; the answer is then still `true`.
    pub fn save_instruction(&mut self, line: Vec<u8>) -> (r: bool)
        requires
            old(self).wf(),
            line_needed(line@, old(self).comments()) ==> old(self).entries()
                < TRANSLATOR_INSTRUCTIONS_CAPACITY,
        ensures
            r,
            final(self).wf(),
            final(self).lines() == if line_needed(line@, old(self).comments()) {
                old(self).lines().push(line@)
            } else {
                old(self).lines()
            },
            final(self).entries() == old(self).entries() + if line_needed(
                line@,
                old(self).comments(),
            ) {
                1int
            } else {
                0int
            },
            final(self).position() == old(self).position(),
            final(self).pending() == old(self).pending(),
            final(self).comments() == old(self).comments(),
    {
        let needed = self.translate_opts.comments || !(line.len() >= 2 && line[0] == 47
            && line[1] == 47);
        if !needed {
            return true;
        }
        let ghost n0 = self.lines@.len();
        add_line(&mut self.lines, line);
        assert(self.lines@.len() == self.lines().len());
        assert(old(self).lines@.len() == old(self).lines().len());
        self.entries = self.entries + 1;
        true
    }

    /// Gathers a block of lines as one entry; `false`, and nothing
    /// gathered, when the buffer is full.
    pub fn save_link(&mut self, block: Vec<Vec<u8>>) -> (r: bool)
        requires
            old(self).wf(),
        ensures
            final(self).wf(),
            r == (old(self).entries() < TRANSLATOR_INSTRUCTIONS_CAPACITY),
            final(self).lines() == if r {
                old(self).lines() + views_of(block@)
            } else {
                old(self).lines()
            },
            final(self).entries() == old(self).entries() + if r {
                1int
            } else {
                0int
            },
            final(self).position() == old(self).position(),
            final(self).pending() == old(self).pending(),
            final(self).comments() == old(self).comments(),
    {
        if self.entries == TRANSLATOR_INSTRUCTIONS_CAPACITY {
            return false;
        }
        self.add_block(block);
        self.entries = self.entries + 1;
        true
    }

    fn add_block(&mut self, block: Vec<Vec<u8>>)
        requires
            old(self).wf(),
        ensures
            final(self).lines() == old(self).lines() + views_of(block@),
            final(self).entries == old(self).entries,
            final(self).cursor_down == old(self).cursor_down,
            final(self).tokens@ == old(self).tokens@,
            final(self).translate_opts == old(self).translate_opts,
            final(self).wf(),
    {
        let ghost o = self.lines();
        let mut block = block;
        let ghost b = views_of(block@);
        let n = block.len();
        let mut i: usize = 0;
        while i < n
            invariant
                i <= n,
                n == block@.len(),
                b.len() == n,
                forall|j: int| i <= j < n ==> #[trigger] block@[j]@ == b[j],
                self.lines() == o + b.subrange(0, i as int),
                self.entries == old(self).entries,
                self.cursor_down == old(self).cursor_down,
                self.tokens@ == old(self).tokens@,
                self.translate_opts == old(self).translate_opts,
                self.cursor_down <= self.lines@.len(),
                old(self).wf(),
            decreases n - i,
        {
            let mut line: Vec<u8> = Vec::new();
            std::mem::swap(&mut line, &mut block[i]);
            proof {
                assert(line@ == b[i as int]);
            }
            add_line(&mut self.lines, line);
            assert(self.lines@.len() == self.lines().len());
            i = i + 1;
            assert(self.lines() =~= o + b.subrange(0, i as int));
        }
        assert(b.subrange(0, n as int) =~= b);
    }
    fn needed_at(&self, i: usize) -> (r: bool)
        requires
            i < self.lines@.len(),
        ensures
            r == line_needed(self.lines()[i as int], self.comments()),
    {
        let l = &self.lines[i];
        proof {
            assert(self.lines()[i as int] == l@);
        }
        self.translate_opts.comments || !(l.len() >= 2 && l[0] == 47 && l[1] == 47)
    }

    /// Writes at most `chunk` lines from the position on, each followed by
    /// a line feed, passing over the lines that are not written, and moves
    /// the position past them.
    pub fn instructions_to_symbols(&mut self, chunk: usize) -> (r: Vec<u8>)
        requires
            old(self).wf(),
        ensures
            final(self).wf(),
            (r@, final(self).position()) == symbols_from(
                old(self).lines(),
                old(self).position(),
                old(self).comments(),
                chunk as nat,
            ),
            final(self).lines() == old(self).lines(),
            final(self).entries() == old(self).entries(),
            final(self).pending() == old(self).pending(),
            final(self).comments() == old(self).comments(),
    {
        let ghost s = self.lines();
        let ghost c = self.comments();
        let ghost goal = symbols_from(s, self.cursor_down as int, c, chunk as nat);
        let n = self.lines.len();
        assert(n == s.len());
        let mut out: Vec<u8> = Vec::new();
        let mut k: usize = 0;
        while k < chunk
            invariant
                k <= chunk,
                n == s.len(),
                n == self.lines@.len(),
                s == self.lines(),
                c == self.comments(),
                self.cursor_down <= n,
                out@ + symbols_from(s, self.cursor_down as int, c, (chunk - k) as nat).0 == goal.0,
                symbols_from(s, self.cursor_down as int, c, (chunk - k) as nat).1 == goal.1,
                self.entries == old(self).entries,
                self.tokens@ == old(self).tokens@,
                self.translate_opts == old(self).translate_opts,
                old(self).wf(),
            decreases chunk - k, n - self.cursor_down,
        {
            let ghost p0 = self.cursor_down as int;
            let ghost rem = (chunk - k) as nat;
            while self.cursor_down < n && !self.needed_at(self.cursor_down)
                invariant
                    p0 <= self.cursor_down <= n,
                    n == s.len(),
                    n == self.lines@.len(),
                    s == self.lines(),
                    c == self.comments(),
                    next_needed(s, self.cursor_down as int, c) == next_needed(s, p0, c),
                    self.entries == old(self).entries,
                    self.tokens@ == old(self).tokens@,
                    self.translate_opts == old(self).translate_opts,
                decreases n - self.cursor_down,
            {
                self.cursor_down = self.cursor_down + 1;
            }
            if self.cursor_down >= n {
                assert(symbols_from(s, p0, c, rem) == (Seq::<u8>::empty(), n as int));
                k = chunk;
                assert(symbols_from(s, self.cursor_down as int, c, 0) == (Seq::<u8>::empty(), n as int));
                assert(out@ + Seq::<u8>::empty() =~= out@);
            } else {
                let j = self.cursor_down;
                assert(next_needed(s, j as int, c) == j);
                let l = &self.lines[j];
                let ghost before = out@;
                let mut t: usize = 0;
                while t < l.len()
                    invariant
                        t <= l@.len(),
                        out@ == before + l@.subrange(0, t as int),
                    decreases l@.len() - t,
                {
                    out.push(l[t]);
                    t = t + 1;
                    assert(out@ =~= before + l@.subrange(0, t as int));
                }
                out.push(10);
                proof {
                    assert(l@.subrange(0, l@.len() as int) =~= l@);
                    assert(s[j as int] == l@);
                    let rest = symbols_from(s, j + 1, c, (rem - 1) as nat);
                    assert(symbols_from(s, p0, c, rem) == (s[j as int] + seq![10u8] + rest.0, rest.1));
                    assert(out@ + rest.0 =~= before + (s[j as int] + seq![10u8] + rest.0));
                }
                self.cursor_down = j + 1;
                k = k + 1;
            }
        }
        assert(symbols_from(s, self.cursor_down as int, c, 0).0 =~= Seq::<u8>::empty());
        assert(out@ + Seq::<u8>::empty() =~= out@);
        out
    }


    /// Translates the queued commands in order, each command's lines
    /// gathered as one entry, and empties the queue. The factory's prefix
    /// names statics and return labels, and each comparison draws its two
    /// labels from the factory.
    pub fn translate(&mut self, factory: &mut VariableFactory)
        requires
            old(self).wf(),
            old(factory).wf(),
            forall|i: int|
                0 <= i < old(self).pending().len() ==> payload_ok(
                    #[trigger] old(self).pending()[i].payload,
                ),
            old(factory).next_index() + labels_drawn(old(self).pending()) <= i16::MAX,
            old(self).entries() + old(self).pending().len() <= TRANSLATOR_INSTRUCTIONS_CAPACITY,
        ensures
            final(self).wf(),
            final(self).lines() == old(self).lines() + tokens_lines(
                old(self).pending(),
                old(factory).prefix(),
                old(factory).next_index() as int,
            ),
            final(self).entries() == old(self).entries() + old(self).pending().len(),
            final(self).pending() == Seq::<AsmToken>::empty(),
            final(self).position() == old(self).position(),
            final(self).comments() == old(self).comments(),
            final(factory).wf(),
            final(factory).prefix() == old(factory).prefix(),
            final(factory).next_index() == old(factory).next_index() + labels_drawn(old(self).pending()),
    {
        let ghost ts = self.tokens@;
        let ghost prefix = factory.prefix();
        let ghost n0 = factory.next_index() as int;
        let ghost o = self.lines();
        let mut tokens: Vec<AsmToken> = Vec::new();
        std::mem::swap(&mut tokens, &mut self.tokens);
        let all = TranslateOpts { comments: true };
        let n = tokens.len();
        let mut i: usize = 0;
        proof {
            assert(ts.subrange(0, 0) =~= Seq::<AsmToken>::empty());
            assert(o + tokens_lines(ts.subrange(0, 0), prefix, n0) =~= o);
        }
        while i < n
            invariant
                i <= n,
                n == ts.len(),
                tokens@.len() == n,
                forall|j: int| i <= j < n ==> #[trigger] tokens@[j] == ts[j],
                forall|j: int| 0 <= j < n ==> payload_ok(#[trigger] ts[j].payload),
                n0 + labels_drawn(ts) <= i16::MAX,
                self.lines() == o + tokens_lines(ts.subrange(0, i as int), prefix, n0),
                self.entries == old(self).entries + i,
                old(self).entries + n <= TRANSLATOR_INSTRUCTIONS_CAPACITY,
                self.cursor_down == old(self).cursor_down,
                self.tokens@ == Seq::<AsmToken>::empty(),
                self.translate_opts == old(self).translate_opts,
                self.wf(),
                factory.wf(),
                factory.prefix() == prefix,
                factory.next_index() == n0 + labels_drawn(ts.subrange(0, i as int)),
                all.comments,
            decreases n - i,
        {
            proof {
                lemma_labels_drawn_grows(ts, i + 1);
                assert(ts.subrange(0, i + 1).drop_last() =~= ts.subrange(0, i as int));
                assert(ts.subrange(0, i + 1).last() == ts[i as int]);
            }
            let id = tokens[i].instruction;
            let lines = translate_payload(&mut tokens[i].payload, factory, id, &all);
            self.add_block(lines);
            self.entries = self.entries + 1;
            proof {
                assert(self.lines() =~= o + tokens_lines(ts.subrange(0, i + 1), prefix, n0));
            }
            i = i + 1;
        }
        assert(ts.subrange(0, n as int) =~= ts);
    }

    /// Starts a program: sets the stack pointer, queues and translates a
    /// call of `Sys.init` with no arguments (numbered 0) after the commands
    /// already queued, then gathers the comment `// Finish init`.
    pub fn init_translator(&mut self, factory: &mut VariableFactory)
        requires
            old(self).wf(),
            old(factory).wf(),
            old(self).pending().len() < TRANSLATOR_TOKEN_CAPACITY,
            forall|i: int|
                0 <= i < old(self).pending().len() ==> payload_ok(
                    #[trigger] old(self).pending()[i].payload,
                ),
            old(factory).next_index() + labels_drawn(old(self).pending()) <= i16::MAX,
            old(self).entries() + old(self).pending().len() + 3 <= TRANSLATOR_INSTRUCTIONS_CAPACITY,
        ensures
            final(self).wf(),
            final(self).lines() == old(self).lines() + init_sp_lines() + tokens_lines(
                old(self).pending(),
                old(factory).prefix(),
                old(factory).next_index() as int,
            ) + call_lines(sys_init_name(), 0, old(factory).prefix(), 0) + if old(self).comments() {
                seq![finish_init_comment()]
            } else {
                Seq::<Seq<u8>>::empty()
            },
            final(self).pending() == Seq::<AsmToken>::empty(),
            final(self).position() == old(self).position(),
            final(self).comments() == old(self).comments(),
            final(factory).wf(),
            final(factory).prefix() == old(factory).prefix(),
            final(factory).next_index() == old(factory).next_index() + labels_drawn(old(self).pending()),
    {
        let mut init: Vec<Vec<u8>> = Vec::new();
        add_line(&mut init, at_number_line(256));
        add_line(&mut init, d_eq_a_line());
        add_line(&mut init, at_sp_line());
        add_line(&mut init, m_eq_d_line());
        assert(views_of(init@) =~= init_sp_lines());
        self.save_link(init);
        let mut name: Vec<u8> = Vec::new();
        name.push(83);
        name.push(121);
        name.push(115);
        name.push(46);
        name.push(105);
        name.push(110);
        name.push(105);
        name.push(116);
        assert(name@ =~= sys_init_name());
        let payload = AsmInstructionPayload::Function(
            AsmFunctionInstruction::Call(FunctionMetadata { name, args_count: 0 }),
        );
        let token = AsmToken { payload, instruction: 0, src: 0 };
        let ghost ts = self.pending();
        let ghost t = token;
        self.save_token(token);
        proof {
            lemma_tokens_lines_push(ts, t, factory.prefix(), factory.next_index() as int);
        }
        self.translate(factory);
        let mut finish: Vec<u8> = Vec::new();
        finish.push(47);
        finish.push(47);
        finish.push(32);
        finish.push(70);
        finish.push(105);
        finish.push(110);
        finish.push(105);
        finish.push(115);
        finish.push(104);
        finish.push(32);
        finish.push(105);
        finish.push(110);
        finish.push(105);
        finish.push(116);
        assert(finish@ =~= finish_init_comment());
        self.save_instruction(finish);
        proof {
            let p = old(factory).prefix();
            let n = old(factory).next_index() as int;
            let tail = if old(self).comments() {
                seq![finish_init_comment()]
            } else {
                Seq::<Seq<u8>>::empty()
            };
            assert(self.lines() =~= old(self).lines() + init_sp_lines() + tokens_lines(ts, p, n)
                + call_lines(sys_init_name(), 0, p, 0) + tail);
        }
    }
}

/// A program starts by setting the stack pointer to 256 and calling
/// `Sys.init`, then notes `// Finish init`.
pub proof fn lemma_init_spellings()
    ensures
        init_sp_lines() == seq![seq!['@' as u8, '2' as u8, '5' as u8, '6' as u8], seq!['D' as u8, '=' as u8, 'A' as u8], seq!['@' as u8, 'S' as u8, 'P' as u8], seq!['M' as u8, '=' as u8, 'D' as u8]],
        sys_init_name() == seq!['S' as u8, 'y' as u8, 's' as u8, '.' as u8, 'i' as u8, 'n' as u8, 'i' as u8, 't' as u8],
        finish_init_comment() == seq!['/' as u8, '/' as u8, ' ' as u8, 'F' as u8, 'i' as u8, 'n' as u8, 'i' as u8, 's' as u8, 'h' as u8, ' ' as u8, 'i' as u8, 'n' as u8, 'i' as u8, 't' as u8],
{
    reveal_with_fuel(crate::util::nat_digits, 4);
    assert(crate::util::nat_digits(2) == seq![50u8]);
    assert(crate::util::nat_digits(25) == seq![50u8, 53u8]);
    assert(crate::util::nat_digits(256) =~= seq![50u8, 53u8, 54u8]);
    assert(at_number(256) =~= seq!['@' as u8, '2' as u8, '5' as u8, '6' as u8]);
}

} // verus!
