use vstd::prelude::*;

use crate::ansi::Fg;
use crate::ir::{depth_at, render_lines, well_nested, Instruction, Module};
use crate::signature::TypeSignature;
use crate::text::{tab_text, tab_unit};

verus! {

/// The depth and the listing after the first `k` instructions depend on those
/// instructions and their signatures alone.
pub proof fn lemma_prefix_determines_listing(
    ins1: Seq<Instruction>,
    sigs1: Seq<TypeSignature>,
    ins2: Seq<Instruction>,
    sigs2: Seq<TypeSignature>,
    k: nat,
)
    requires
        k <= ins1.len(),
        k <= ins2.len(),
        k <= sigs1.len(),
        k <= sigs2.len(),
        forall|j: int| 0 <= j < k ==> ins1[j] == ins2[j] && sigs1[j] == sigs2[j],
    ensures
        depth_at(ins1, k) == depth_at(ins2, k),
        render_lines(ins1, sigs1, k) == render_lines(ins2, sigs2, k),
    decreases k,
{
    if k > 0 {
        lemma_prefix_determines_listing(ins1, sigs1, ins2, sigs2, (k - 1) as nat);
        assert(ins1[k - 1] == ins2[k - 1] && sigs1[k - 1] == sigs2[k - 1]);
    }
}

/// In a well nested sequence of instructions the nesting depth never falls below zero.
pub proof fn lemma_depth_never_negative(ins: Seq<Instruction>, n: nat, k: nat)
    requires
        well_nested(ins, n),
        k <= n,
    ensures
        depth_at(ins, k) >= 0,
    decreases k,
{
    if k > 0 {
        lemma_depth_never_negative(ins, n, (k - 1) as nat);
        let prev = ins[k - 1];
        if prev.needs_scope() {
            assert(depth_at(ins, (k - 1) as nat) >= 1);
        }
    }
}

/// Pushing an instruction onto a module whose vectors are aligned keeps the
/// listing of what was there and adds the line of the new instruction, printed
/// at the depth that the earlier instructions reached; the module still nests
/// well exactly when it did and the new instruction finds the scope it needs.
pub proof fn lemma_push_appends_line(
    before: Module,
    after: Module,
    pos: crate::position::Position,
    sig: TypeSignature,
    ins: Instruction,
)
    requires
        before.aligned(),
        after.positions@ == before.positions@.push(pos),
        after.signatures@ == before.signatures@.push(sig),
        after.instructions@ == before.instructions@.push(ins),
    ensures
        after.aligned(),
        after.line_count() == before.line_count() + 1,
        after.rendered() == before.rendered() + ins.line(
            sig@,
            depth_at(before.instructions@, before.line_count()),
        ),
        after.nests_well() <==> (before.nests_well() && (ins.needs_scope() ==> depth_at(
            before.instructions@,
            before.line_count(),
        ) >= 1)),
{
    let n = before.line_count();
    let a = after.instructions@;
    let b = before.instructions@;
    lemma_prefix_determines_listing(a, after.signatures@, b, before.signatures@, n);
    assert(a[n as int] == ins);
    assert(after.signatures@[n as int] == sig);
    assert(after.rendered() == render_lines(a, after.signatures@, n) + ins.line(
        sig@,
        depth_at(a, n),
    ));
    assert forall|k: int| 0 <= k < n implies depth_at(a, k as nat) == depth_at(b, k as nat) && a[k]
        == b[k] by {
        lemma_prefix_determines_listing(a, after.signatures@, b, before.signatures@, k as nat);
    }
    if after.nests_well() {
        assert forall|k: int| 0 <= k < n && (#[trigger] b[k]).needs_scope() implies depth_at(
            b,
            k as nat,
        ) >= 1 by {
            assert(a[k] == b[k]);
            assert(a[k].needs_scope());
        }
        if ins.needs_scope() {
            assert(a[n as int].needs_scope());
        }
    }
    if before.nests_well() && (ins.needs_scope() ==> depth_at(b, n) >= 1) {
        assert forall|k: int| 0 <= k < n + 1 && (#[trigger] a[k]).needs_scope() implies depth_at(
            a,
            k as nat,
        ) >= 1 by {
            if k < n {
                assert(a[k] == b[k]);
                assert(b[k].needs_scope());
            }
        }
    }
}

/// An instruction that closes or continues a scope is printed at the
/// indentation of the instruction that opened the scope, when the instructions
/// between the two leave the depth where the opener put it.
pub proof fn lemma_scope_end_aligns_with_opener(ins: Seq<Instruction>, i: int, j: int)
    requires
        well_nested(ins, ins.len()),
        0 <= i < j < ins.len(),
        ins[i].opens_scope(),
        ins[j].needs_scope(),
        depth_at(ins, j as nat) == depth_at(ins, (i + 1) as nat),
    ensures
        ins[j].indent(depth_at(ins, j as nat)) == ins[i].indent(depth_at(ins, i as nat)),
{
    lemma_depth_never_negative(ins, ins.len(), i as nat);
    assert(depth_at(ins, (i + 1) as nat) == depth_at(ins, i as nat) + 1);
}

/// An instruction inside a scope, that neither ends nor continues it, is printed
/// one indentation step deeper than the instruction that opened the scope, when
/// the instructions between the two leave the depth where the opener put it.
pub proof fn lemma_inner_line_one_step_deeper(ins: Seq<Instruction>, i: int, j: int)
    requires
        well_nested(ins, ins.len()),
        0 <= i < j < ins.len(),
        ins[i].opens_scope(),
        !ins[j].needs_scope(),
        !(ins[j] is StructField),
        depth_at(ins, j as nat) == depth_at(ins, (i + 1) as nat),
    ensures
        ins[j].indent(depth_at(ins, j as nat)) == ins[i].indent(depth_at(ins, i as nat))
            + tab_unit(),
{
    lemma_depth_never_negative(ins, ins.len(), i as nat);
    let d = depth_at(ins, i as nat);
    assert(depth_at(ins, (i + 1) as nat) == d + 1);
    assert(tab_text((d + 1) as nat) == tab_text(d as nat) + tab_unit());
}


/// The nesting depth that the listing tracks moves by the instruction alone:
/// module, if, while, function, return, let, let mut, block and struct open a
/// scope (one step deeper after them); module end, if end, while end, function
/// end, return end, let end, let mut end, block end and struct end close one
/// (one step back); every other instruction, values, operators, calls, casts,
/// imports, extern fns, struct fields and the if/while body markers among them,
/// leaves the depth as it was.
pub proof fn lemma_depth_step(ins: Seq<Instruction>, k: nat)
    requires
        k < ins.len(),
    ensures
        (
            ins[k as int] is Module
            || ins[k as int] is If
            || ins[k as int] is While
            || ins[k as int] is Function
            || ins[k as int] is Return
            || ins[k as int] is Let
            || ins[k as int] is LetMut
            || ins[k as int] is Block
            || ins[k as int] is Struct
        ) ==> depth_at(ins, k + 1) == depth_at(ins, k) + 1,
        (
            ins[k as int] is ModuleEnd
            || ins[k as int] is IfEnd
            || ins[k as int] is WhileEnd
            || ins[k as int] is FunctionEnd
            || ins[k as int] is ReturnEnd
            || ins[k as int] is LetEnd
            || ins[k as int] is LetMutEnd
            || ins[k as int] is BlockEnd
            || ins[k as int] is StructEnd
        ) ==> depth_at(ins, k + 1) == depth_at(ins, k) - 1,
        !(
            ins[k as int] is Module
            || ins[k as int] is If
            || ins[k as int] is While
            || ins[k as int] is Function
            || ins[k as int] is Return
            || ins[k as int] is Let
            || ins[k as int] is LetMut
            || ins[k as int] is Block
            || ins[k as int] is Struct
            || ins[k as int] is ModuleEnd
            || ins[k as int] is IfEnd
            || ins[k as int] is WhileEnd
            || ins[k as int] is FunctionEnd
            || ins[k as int] is ReturnEnd
            || ins[k as int] is LetEnd
            || ins[k as int] is LetMutEnd
            || ins[k as int] is BlockEnd
            || ins[k as int] is StructEnd
        ) ==> depth_at(ins, k + 1) == depth_at(ins, k),
{
    assert(depth_at(ins, k + 1) == depth_at(ins, k) + ins[k as int].depth_delta());
}

/// A scope that is opened, holds one instruction that neither opens nor closes
/// a scope (an extern fn in a let, a value in a block), and is closed, leaves
/// the depth where it was before the scope was opened.
pub proof fn lemma_short_scope_restores_depth(ins: Seq<Instruction>, k: nat)
    requires
        k + 2 < ins.len(),
        (
            ins[k as int] is Module
            || ins[k as int] is If
            || ins[k as int] is While
            || ins[k as int] is Function
            || ins[k as int] is Return
            || ins[k as int] is Let
            || ins[k as int] is LetMut
            || ins[k as int] is Block
            || ins[k as int] is Struct
        ),
        !(
            ins[k + 1int] is Module
            || ins[k + 1int] is If
            || ins[k + 1int] is While
            || ins[k + 1int] is Function
            || ins[k + 1int] is Return
            || ins[k + 1int] is Let
            || ins[k + 1int] is LetMut
            || ins[k + 1int] is Block
            || ins[k + 1int] is Struct
            || ins[k + 1int] is ModuleEnd
            || ins[k + 1int] is IfEnd
            || ins[k + 1int] is WhileEnd
            || ins[k + 1int] is FunctionEnd
            || ins[k + 1int] is ReturnEnd
            || ins[k + 1int] is LetEnd
            || ins[k + 1int] is LetMutEnd
            || ins[k + 1int] is BlockEnd
            || ins[k + 1int] is StructEnd
        ),
        (
            ins[k + 2int] is ModuleEnd
            || ins[k + 2int] is IfEnd
            || ins[k + 2int] is WhileEnd
            || ins[k + 2int] is FunctionEnd
            || ins[k + 2int] is ReturnEnd
            || ins[k + 2int] is LetEnd
            || ins[k + 2int] is LetMutEnd
            || ins[k + 2int] is BlockEnd
            || ins[k + 2int] is StructEnd
        ),
    ensures
        depth_at(ins, k + 3) == depth_at(ins, k),
{
    lemma_depth_step(ins, k);
    lemma_depth_step(ins, k + 1);
    lemma_depth_step(ins, k + 2);
}

/// A listing goes on nesting well after one more instruction exactly when that
/// instruction is not a scope end or body marker (if body, if else, if else
/// body, else, while body, function parameter) standing where no scope is open.
pub proof fn lemma_well_nested_step(ins: Seq<Instruction>, k: nat)
    requires
        k < ins.len(),
    ensures
        well_nested(ins, k + 1) <==> (well_nested(ins, k) && ((
                ins[k as int] is ModuleEnd
                || ins[k as int] is IfEnd
                || ins[k as int] is WhileEnd
                || ins[k as int] is FunctionEnd
                || ins[k as int] is ReturnEnd
                || ins[k as int] is LetEnd
                || ins[k as int] is LetMutEnd
                || ins[k as int] is BlockEnd
                || ins[k as int] is StructEnd
                || ins[k as int] is IfBody
                || ins[k as int] is IfElseIf
                || ins[k as int] is IfElseIfBody
                || ins[k as int] is IfElse
                || ins[k as int] is WhileBody
                || ins[k as int] is FunctionParameter
            )
            ==> depth_at(ins, k) >= 1)),
{
    if well_nested(ins, k + 1) {
        assert forall|j: int| 0 <= j < k && (#[trigger] ins[j]).needs_scope() implies depth_at(
            ins,
            j as nat,
        ) >= 1 by {}
        if ins[k as int].needs_scope() {
            assert(depth_at(ins, k) >= 1);
        }
    }
}

/// The indentation of an instruction's line, when the depth before it is `d`:
/// a struct field gets none; a scope end or body marker is printed one step
/// shallower than `d`, at the level of the instruction that opened its scope;
/// every other instruction is printed `d` steps deep.
pub proof fn lemma_line_indentation(ins: Instruction, sig: Seq<char>, d: int)
    requires
        d >= 0,
    ensures
        ins is StructField ==> ins.line(sig, d) == ins.line_body(sig),
        (
            ins is ModuleEnd
            || ins is IfEnd
            || ins is WhileEnd
            || ins is FunctionEnd
            || ins is ReturnEnd
            || ins is LetEnd
            || ins is LetMutEnd
            || ins is BlockEnd
            || ins is StructEnd
            || ins is IfBody
            || ins is IfElseIf
            || ins is IfElseIfBody
            || ins is IfElse
            || ins is WhileBody
            || ins is FunctionParameter
        ) && d >= 1 ==> ins.line(sig, d) == tab_text((d - 1) as nat)
            + ins.line_body(sig),
        !(
            ins is ModuleEnd
            || ins is IfEnd
            || ins is WhileEnd
            || ins is FunctionEnd
            || ins is ReturnEnd
            || ins is LetEnd
            || ins is LetMutEnd
            || ins is BlockEnd
            || ins is StructEnd
            || ins is IfBody
            || ins is IfElseIf
            || ins is IfElseIfBody
            || ins is IfElse
            || ins is WhileBody
            || ins is FunctionParameter
            || ins is StructField
        ) ==> ins.line(sig, d) == tab_text(d as nat)
            + ins.line_body(sig),
{
}

/// Cancelling a common frame around two texts.
proof fn lemma_frame_cancels(p: Seq<char>, s1: Seq<char>, s2: Seq<char>, q: Seq<char>)
    requires
        p + s1 + q == p + s2 + q,
    ensures
        s1 == s2,
{
    let l1 = p + s1 + q;
    let l2 = p + s2 + q;
    assert(l1.len() == p.len() + s1.len() + q.len());
    assert(l2.len() == p.len() + s2.len() + q.len());
    assert(s1.len() == s2.len());
    assert forall|i: int| 0 <= i < s1.len() implies s1[i] == s2[i] by {
        assert(l1[p.len() + i] == s1[i]);
        assert(l2[p.len() + i] == s2[i]);
    }
    assert(s1 =~= s2);
}

/// A line shows the instruction's signature exactly for if, the if/else
/// markers, function, return, let, let mut, import, extern fn, struct, struct
/// field, as, identifier and the arithmetic operators: there two different
/// signatures give two different lines; the line of any other instruction
/// (block, while, the scope ends, comparisons, logic, assign, values, calls,
/// ...) is the same whatever the signature.
pub proof fn lemma_signature_shown(ins: Instruction, sig1: Seq<char>, sig2: Seq<char>, d: int)
    ensures
        !(
            ins is If
            || ins is IfBody
            || ins is IfElseIf
            || ins is IfElseIfBody
            || ins is IfElse
            || ins is Function
            || ins is Return
            || ins is Let
            || ins is LetMut
            || ins is Import
            || ins is ExternFn
            || ins is Struct
            || ins is StructField
            || ins is As
            || ins is Identifier
            || ins is Add
            || ins is Subtract
            || ins is Multiply
            || ins is Divide
        ) ==> ins.line(sig1, d) == ins.line(sig2, d),
        (
            ins is If
            || ins is IfBody
            || ins is IfElseIf
            || ins is IfElseIfBody
            || ins is IfElse
            || ins is Function
            || ins is Return
            || ins is Let
            || ins is LetMut
            || ins is Import
            || ins is ExternFn
            || ins is Struct
            || ins is StructField
            || ins is As
            || ins is Identifier
            || ins is Add
            || ins is Subtract
            || ins is Multiply
            || ins is Divide
        ) && sig1 != sig2 ==> ins.line(sig1, d) != ins.line(sig2, d),
{
    let pre = line_head(ins, d);
    let reset = Fg::Reset.spec_code() + "\n"@;
    lemma_line_shape(ins, sig1, d);
    lemma_line_shape(ins, sig2, d);
    if (
            ins is If
            || ins is IfBody
            || ins is IfElseIf
            || ins is IfElseIfBody
            || ins is IfElse
            || ins is Function
            || ins is Return
            || ins is Let
            || ins is LetMut
            || ins is Import
            || ins is ExternFn
            || ins is Struct
            || ins is StructField
            || ins is As
            || ins is Identifier
            || ins is Add
            || ins is Subtract
            || ins is Multiply
            || ins is Divide
        ) {
        lemma_tail_frame(ins, sig1);
        lemma_tail_frame(ins, sig2);
        let p = pre + tail_before(ins);
        let q = tail_after(ins) + reset;
        lemma_regroup(pre, tail_before(ins), sig1, tail_after(ins), reset);
        lemma_regroup(pre, tail_before(ins), sig2, tail_after(ins), reset);
        if ins.line(sig1, d) == ins.line(sig2, d) {
            lemma_frame_cancels(p, sig1, sig2, q);
        }
    } else {
        lemma_tail_ignores_sig(ins, sig1, sig2);
    }
}

/// Regrouping a concatenation of five texts.
proof fn lemma_regroup(a: Seq<char>, b: Seq<char>, c: Seq<char>, d: Seq<char>, e: Seq<char>)
    ensures
        a + (b + c + d) + e == (a + b) + c + (d + e),
{
    assert(a + (b + c + d) + e =~= (a + b) + c + (d + e));
}

/// What a line holds before the instruction's tail.
spec fn line_head(ins: Instruction, d: int) -> Seq<char> {
    ins.indent(d) + ins.spec_head_color().spec_code() + ins.spec_keyword()
}

proof fn lemma_line_shape(ins: Instruction, sig: Seq<char>, d: int)
    ensures
        ins.line(sig, d) == line_head(ins, d) + ins.spec_tail(sig) + (Fg::Reset.spec_code()
            + "\n"@),
{
    assert(ins.line(sig, d) =~= line_head(ins, d) + ins.spec_tail(sig) + (Fg::Reset.spec_code()
        + "\n"@));
}

/// What stands before the signature in the tail of an instruction that shows it.
spec fn tail_before(ins: Instruction) -> Seq<char> {
    let yellow = Fg::Yellow.spec_code();
    let red = Fg::Red.spec_code();
    match ins {
        Instruction::Let(name) => yellow + " "@ + name@ + " "@ + red,
        Instruction::LetMut(name) => yellow + " "@ + name@ + " "@ + red,
        Instruction::Import(name) => yellow + " "@ + name@ + " "@ + red,
        Instruction::StructField(name) => yellow + name@ + " "@ + red,
        Instruction::Identifier(value) => yellow + " "@ + value@ + red + " "@,
        _ => red + " "@,
    }
}

/// What stands after the signature in the tail of an instruction that shows it.
spec fn tail_after(ins: Instruction) -> Seq<char> {
    match ins {
        Instruction::Let(_) => " "@,
        Instruction::LetMut(_) => " "@,
        _ => Seq::empty(),
    }
}

proof fn lemma_tail_frame(ins: Instruction, sig: Seq<char>)
    requires
        (
            ins is If
            || ins is IfBody
            || ins is IfElseIf
            || ins is IfElseIfBody
            || ins is IfElse
            || ins is Function
            || ins is Return
            || ins is Let
            || ins is LetMut
            || ins is Import
            || ins is ExternFn
            || ins is Struct
            || ins is StructField
            || ins is As
            || ins is Identifier
            || ins is Add
            || ins is Subtract
            || ins is Multiply
            || ins is Divide
        ),
    ensures
        ins.spec_tail(sig) == tail_before(ins) + sig + tail_after(ins),
{
    assert(ins.spec_tail(sig) =~= tail_before(ins) + sig + tail_after(ins));
}

proof fn lemma_tail_ignores_sig(ins: Instruction, sig1: Seq<char>, sig2: Seq<char>)
    requires
        !(
            ins is If
            || ins is IfBody
            || ins is IfElseIf
            || ins is IfElseIfBody
            || ins is IfElse
            || ins is Function
            || ins is Return
            || ins is Let
            || ins is LetMut
            || ins is Import
            || ins is ExternFn
            || ins is Struct
            || ins is StructField
            || ins is As
            || ins is Identifier
            || ins is Add
            || ins is Subtract
            || ins is Multiply
            || ins is Divide
        ),
    ensures
        ins.spec_tail(sig1) == ins.spec_tail(sig2),
{
}

} // verus!
