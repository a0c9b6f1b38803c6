//! The decoded instruction record and its rendering as assembly text.

use vstd::prelude::*;

verus! {

/// A fully decoded instruction: a mnemonic and its two textual operands.
#[derive(Debug)]
pub struct Inst {
    /// The instruction mnemonic.
    pub mnemonic: String,
    /// The destination operand.
    pub dst: String,
    /// The source operand.
    pub src: String,
}

/// The three text fields of an instruction, as character sequences.
pub open spec fn inst_texts(i: Inst) -> (Seq<char>, Seq<char>, Seq<char>) {
    (i.mnemonic@, i.dst@, i.src@)
}

/// The text fields of a sequence of instruction records.
pub open spec fn insts_texts(s: Seq<Inst>) -> Seq<(Seq<char>, Seq<char>, Seq<char>)> {
    s.map_values(|i: Inst| inst_texts(i))
}

/// The assembly line for an instruction's text fields:
/// `mnemonic dst, src`.
pub open spec fn line_seq(t: (Seq<char>, Seq<char>, Seq<char>)) -> Seq<char> {
    t.0 + " "@ + t.1 + ", "@ + t.2
}

/// The body of a rendered program: one line per instruction, each ended
/// by a newline.
pub open spec fn body_seq(ts: Seq<(Seq<char>, Seq<char>, Seq<char>)>) -> Seq<char>
    decreases ts.len(),
{
    if ts.len() == 0 {
        Seq::empty()
    } else {
        line_seq(ts[0]) + "\n"@ + body_seq(ts.drop_first())
    }
}

/// A whole rendered program: the `bits 16` directive, a blank line, then
/// one line per instruction.
pub open spec fn program_seq(ts: Seq<(Seq<char>, Seq<char>, Seq<char>)>) -> Seq<char> {
    "bits 16\n\n"@ + body_seq(ts)
}

/// Appending an instruction to a program appends its line to the body.
proof fn lemma_body_push(ts: Seq<(Seq<char>, Seq<char>, Seq<char>)>, t: (Seq<char>, Seq<char>, Seq<char>))
    ensures
        body_seq(ts.push(t)) == body_seq(ts) + line_seq(t) + "\n"@,
    decreases ts.len(),
{
    if ts.len() == 0 {
        assert(ts.push(t).drop_first() =~= ts);
        assert(body_seq(ts.push(t)) =~= body_seq(ts) + line_seq(t) + "\n"@);
    } else {
        assert(ts.push(t).drop_first() =~= ts.drop_first().push(t));
        lemma_body_push(ts.drop_first(), t);
        assert(body_seq(ts.push(t)) =~= body_seq(ts) + line_seq(t) + "\n"@);
    }
}

impl Inst {
    /// The assembly text of this instruction: `mnemonic dst, src`.
    pub fn line(&self) -> (s: String)
        ensures
            s@ == line_seq(inst_texts(*self)),
    {
        let s = self.mnemonic.clone().concat(" ").concat(self.dst.as_str()).concat(", ").concat(
            self.src.as_str(),
        );
        proof {
            assert(s@ =~= line_seq(inst_texts(*self)));
        }
        s
    }
}

/// The full program text for a sequence of decoded instructions: the
/// `bits 16` header, a blank line, then one assembly line per instruction.
pub fn program_text(insts: &Vec<Inst>) -> (s: String)
    ensures
        s@ == program_seq(insts_texts(insts@)),
{
    let ghost all = insts_texts(insts@);
    let mut s = String::from_str("bits 16\n\n");
    proof {
        assert(all.take(0) =~= Seq::empty());
        assert(s@ =~= program_seq(all.take(0)));
    }
    let mut k: usize = 0;
    while k < insts.len()
        invariant
            k <= insts.len(),
            all == insts@.map_values(|i: Inst| inst_texts(i)),
            s@ == program_seq(all.take(k as int)),
        decreases insts.len() - k,
    {
        let line = insts[k].line();
        s.append(line.as_str());
        s.append("\n");
        proof {
            assert(all.take(k + 1) =~= all.take(k as int).push(all[k as int]));
            lemma_body_push(all.take(k as int), all[k as int]);
            assert(s@ =~= program_seq(all.take(k + 1)));
        }
        k = k + 1;
    }
    proof {
        assert(all.take(insts@.len() as int) =~= all);
    }
    s
}

} // verus!
