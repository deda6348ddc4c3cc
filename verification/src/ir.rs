use vstd::prelude::*;

use crate::ansi::Fg;
use crate::position::Position;
use crate::signature::TypeSignature;
use crate::text::{decimal, decimal_signed, fmt_tab, push_decimal, push_decimal_signed, tab_text};

verus! {

/// Contains all of the instruction types
#[derive(Debug, Clone, PartialEq)]
pub enum Instruction {
    Module(String),
    ModuleEnd,
    // --------------------
    // Branch structures
    // --------------------
    /// If openening, expects the if condition ir afterwards
    If,
    /// If body, closes If opening, expects expression ir afterwards
    IfBody,
    /// If else opening, closes any preceeding if body or else if body, expects a condition ir afterwards
    IfElseIf,
    /// If else body, closes if else opening, epects condition ir afterwards
    IfElseIfBody,
    /// If else expression, closes any if or if else bodies, expects expression ir afterwards
    IfElse,
    /// If end, closes a full if expression
    IfEnd,
    /// While opening, expects the while condition ir afterwards
    While,
    /// While body, closes the while opening, expects expression ir afterwards
    WhileBody,
    /// While end, closes a full while expression
    WhileEnd,
    // --------------------
    // Declarations
    // --------------------
    /// Function declaration, opens a function, expects parameters or expression ir afterwards
    Function,
    /// Function parameter, defines the name (String) for a parameter for the function, lines with the function signature
    FunctionParameter(String),
    /// Function end, closes a function
    FunctionEnd,
    /// Return opening, expects expression ir afterwards
    Return,
    /// Return end, closes a return statement
    ReturnEnd,
    /// Let opening, declares an immutable variable with name (String), expects expression ir for assignment afterwards, no assignment if empty
    Let(String),
    /// Let end, closes a let statement
    LetEnd,
    /// Let mut opening, declares a mutable variable with name (String), expects expression ir for assignment afterwards, no assignment if empty
    LetMut(String),
    /// Let mut end, closes a let mut statement
    LetMutEnd,
    // --------------------
    // Expressions
    // --------------------
    /// Opens a block
    Block,
    /// Closes a block
    BlockEnd,
    /// Imports a module from file (String)
    Import(String),
    /// Defines an external function, must be used inside let statement
    ExternFn,
    /// Defines a struct, expects field name ir afterwards
    Struct,
    /// Names a struct field fron struct signature
    StructField(String),
    /// Closes a struct
    StructEnd,
    /// Call with amount of arguments
    Call(u8),
    /// Cast expression to type
    As,
    /// Identifier value (String)
    Identifier(String),
    /// String value (String), always `Str` type
    String(String),
    /// Boolean value (bool), always `Bool` type
    Bool(bool),
    /// Float value, `F32` type by default, held as the decimal text it is printed as
    Float(String),
    /// Integer value (isize), `I32` type by default
    Integer(isize),
    // --------------------
    // Binary operations
    // --------------------
    Add,
    Subtract,
    Multiply,
    Divide,
    Less,
    LessEqual,
    Greater,
    GreaterEqual,
    Equal,
    NotEqual,
    And,
    Or,
    Assign,
    // --------------------
    // Unary operations
    // --------------------
    Negate,
    Not,
    // --------------------
    // Statement
    // --------------------
    Statement,
}

impl Instruction {
    /// The instruction opens a scope: the lines after it are printed one step deeper.
    pub open spec fn opens_scope(self) -> bool {
        match self {
            Instruction::Module(_) => true,
            Instruction::If => true,
            Instruction::While => true,
            Instruction::Function => true,
            Instruction::Return => true,
            Instruction::Let(_) => true,
            Instruction::LetMut(_) => true,
            Instruction::Block => true,
            Instruction::Struct => true,
            _ => false,
        }
    }

    /// The instruction closes the innermost open scope.
    pub open spec fn closes_scope(self) -> bool {
        match self {
            Instruction::ModuleEnd => true,
            Instruction::IfEnd => true,
            Instruction::WhileEnd => true,
            Instruction::FunctionEnd => true,
            Instruction::ReturnEnd => true,
            Instruction::LetEnd => true,
            Instruction::LetMutEnd => true,
            Instruction::BlockEnd => true,
            Instruction::StructEnd => true,
            _ => false,
        }
    }

    /// The instruction continues the innermost open scope: it is printed at the
    /// level of the instruction that opened it, and the depth stays as it is.
    pub open spec fn continues_scope(self) -> bool {
        match self {
            Instruction::IfBody => true,
            Instruction::IfElseIf => true,
            Instruction::IfElseIfBody => true,
            Instruction::IfElse => true,
            Instruction::WhileBody => true,
            Instruction::FunctionParameter(_) => true,
            _ => false,
        }
    }

    /// The instruction can only be printed inside an open scope.
    pub open spec fn needs_scope(self) -> bool {
        self.closes_scope() || self.continues_scope()
    }

    /// How the instruction changes the nesting depth.
    pub open spec fn depth_delta(self) -> int {
        if self.opens_scope() {
            1
        } else if self.closes_scope() {
            -1
        } else {
            0
        }
    }

    /// The indentation level that the instruction is printed at, when the depth
    /// before it is `depth`.
    pub open spec fn tab_level(self, depth: int) -> int {
        if self.needs_scope() {
            depth - 1
        } else {
            depth
        }
    }

    /// The indentation printed before the instruction (a struct field gets none).
    pub open spec fn indent(self, depth: int) -> Seq<char> {
        if self is StructField {
            Seq::empty()
        } else {
            tab_text(self.tab_level(depth) as nat)
        }
    }

    /// The word that names the instruction in the listing.
    pub open spec fn spec_keyword(self) -> Seq<char> {
        match self {
            Instruction::Module(_) => "module"@,
            Instruction::ModuleEnd => "module end"@,
            Instruction::If => "if"@,
            Instruction::IfBody => "if body"@,
            Instruction::IfElseIf => "if else"@,
            Instruction::IfElseIfBody => "if else body"@,
            Instruction::IfElse => "else"@,
            Instruction::IfEnd => "if end"@,
            Instruction::While => "while"@,
            Instruction::WhileBody => "while body"@,
            Instruction::WhileEnd => "while end"@,
            Instruction::Function => "function"@,
            Instruction::FunctionParameter(_) => "function parameter"@,
            Instruction::FunctionEnd => "function end"@,
            Instruction::Return => "return"@,
            Instruction::ReturnEnd => "return end"@,
            Instruction::Let(_) => "let"@,
            Instruction::LetEnd => "let end"@,
            Instruction::LetMut(_) => "let mut"@,
            Instruction::LetMutEnd => "let mut end"@,
            Instruction::Block => "block"@,
            Instruction::BlockEnd => "block end"@,
            Instruction::Import(_) => "import"@,
            Instruction::ExternFn => "extern fn"@,
            Instruction::Struct => "struct"@,
            Instruction::StructField(_) => "struct field "@,
            Instruction::StructEnd => "struct end"@,
            Instruction::Call(_) => "call"@,
            Instruction::As => "as"@,
            Instruction::Identifier(_) => "identifier"@,
            Instruction::String(_) => "string"@,
            Instruction::Bool(_) => "bool"@,
            Instruction::Float(_) => "float"@,
            Instruction::Integer(_) => "integer"@,
            Instruction::Add => "add"@,
            Instruction::Subtract => "sub"@,
            Instruction::Multiply => "mul"@,
            Instruction::Divide => "div"@,
            Instruction::Less => "less"@,
            Instruction::LessEqual => "less equal"@,
            Instruction::Greater => "greater"@,
            Instruction::GreaterEqual => "greater equal"@,
            Instruction::Equal => "equal"@,
            Instruction::NotEqual => "not equal"@,
            Instruction::And => "and"@,
            Instruction::Or => "or"@,
            Instruction::Assign => "assign"@,
            Instruction::Negate => "negate"@,
            Instruction::Not => "not"@,
            Instruction::Statement => "statement"@,
        }
    }

    /// The word that names the instruction in the listing.
    pub fn keyword(&self) -> (r: &'static str)
        ensures
            r@ == self.spec_keyword(),
    {
        match self {
            Instruction::Module(_) => "module",
            Instruction::ModuleEnd => "module end",
            Instruction::If => "if",
            Instruction::IfBody => "if body",
            Instruction::IfElseIf => "if else",
            Instruction::IfElseIfBody => "if else body",
            Instruction::IfElse => "else",
            Instruction::IfEnd => "if end",
            Instruction::While => "while",
            Instruction::WhileBody => "while body",
            Instruction::WhileEnd => "while end",
            Instruction::Function => "function",
            Instruction::FunctionParameter(_) => "function parameter",
            Instruction::FunctionEnd => "function end",
            Instruction::Return => "return",
            Instruction::ReturnEnd => "return end",
            Instruction::Let(_) => "let",
            Instruction::LetEnd => "let end",
            Instruction::LetMut(_) => "let mut",
            Instruction::LetMutEnd => "let mut end",
            Instruction::Block => "block",
            Instruction::BlockEnd => "block end",
            Instruction::Import(_) => "import",
            Instruction::ExternFn => "extern fn",
            Instruction::Struct => "struct",
            Instruction::StructField(_) => "struct field ",
            Instruction::StructEnd => "struct end",
            Instruction::Call(_) => "call",
            Instruction::As => "as",
            Instruction::Identifier(_) => "identifier",
            Instruction::String(_) => "string",
            Instruction::Bool(_) => "bool",
            Instruction::Float(_) => "float",
            Instruction::Integer(_) => "integer",
            Instruction::Add => "add",
            Instruction::Subtract => "sub",
            Instruction::Multiply => "mul",
            Instruction::Divide => "div",
            Instruction::Less => "less",
            Instruction::LessEqual => "less equal",
            Instruction::Greater => "greater",
            Instruction::GreaterEqual => "greater equal",
            Instruction::Equal => "equal",
            Instruction::NotEqual => "not equal",
            Instruction::And => "and",
            Instruction::Or => "or",
            Instruction::Assign => "assign",
            Instruction::Negate => "negate",
            Instruction::Not => "not",
            Instruction::Statement => "statement",
        }
    }

    /// Values and operations are named in green, everything else in cyan.
    pub open spec fn spec_head_color(self) -> Fg {
        match self {
            Instruction::Identifier(_) => Fg::Green,
            Instruction::String(_) => Fg::Green,
            Instruction::Bool(_) => Fg::Green,
            Instruction::Float(_) => Fg::Green,
            Instruction::Integer(_) => Fg::Green,
            Instruction::Add => Fg::Green,
            Instruction::Subtract => Fg::Green,
            Instruction::Multiply => Fg::Green,
            Instruction::Divide => Fg::Green,
            Instruction::Less => Fg::Green,
            Instruction::LessEqual => Fg::Green,
            Instruction::Greater => Fg::Green,
            Instruction::GreaterEqual => Fg::Green,
            Instruction::Equal => Fg::Green,
            Instruction::NotEqual => Fg::Green,
            Instruction::And => Fg::Green,
            Instruction::Or => Fg::Green,
            Instruction::Assign => Fg::Green,
            Instruction::Negate => Fg::Green,
            Instruction::Not => Fg::Green,
            Instruction::Statement => Fg::Green,
            _ => Fg::Cyan,
        }
    }

    /// The colour the instruction's name is printed in.
    pub fn head_color(&self) -> (c: Fg)
        ensures
            c == self.spec_head_color(),
    {
        match self {
            Instruction::Identifier(_) => Fg::Green,
            Instruction::String(_) => Fg::Green,
            Instruction::Bool(_) => Fg::Green,
            Instruction::Float(_) => Fg::Green,
            Instruction::Integer(_) => Fg::Green,
            Instruction::Add => Fg::Green,
            Instruction::Subtract => Fg::Green,
            Instruction::Multiply => Fg::Green,
            Instruction::Divide => Fg::Green,
            Instruction::Less => Fg::Green,
            Instruction::LessEqual => Fg::Green,
            Instruction::Greater => Fg::Green,
            Instruction::GreaterEqual => Fg::Green,
            Instruction::Equal => Fg::Green,
            Instruction::NotEqual => Fg::Green,
            Instruction::And => Fg::Green,
            Instruction::Or => Fg::Green,
            Instruction::Assign => Fg::Green,
            Instruction::Negate => Fg::Green,
            Instruction::Not => Fg::Green,
            Instruction::Statement => Fg::Green,
            _ => Fg::Cyan,
        }
    }

    /// What follows the instruction's name on its line, before the colour is
    /// reset: its operand, its signature `sig`, or both, each in its colour.
    pub open spec fn spec_tail(self, sig: Seq<char>) -> Seq<char> {
        let yellow = Fg::Yellow.spec_code();
        let red = Fg::Red.spec_code();
        match self {
            Instruction::Module(name) => yellow + " "@ + name@,
            Instruction::FunctionParameter(name) => yellow + " "@ + name@,
            Instruction::String(value) => yellow + " "@ + value@,
            Instruction::Float(value) => yellow + " "@ + value@,
            Instruction::Call(count) => yellow + " "@ + decimal(count as nat),
            Instruction::Integer(value) => yellow + " "@ + decimal_signed(value as int),
            Instruction::Bool(value) => yellow + " "@ + (if value {
                "true"@
            } else {
                "false"@
            }),
            Instruction::Let(name) => yellow + " "@ + name@ + " "@ + red + sig + " "@,
            Instruction::LetMut(name) => yellow + " "@ + name@ + " "@ + red + sig + " "@,
            Instruction::Import(name) => yellow + " "@ + name@ + " "@ + red + sig,
            Instruction::StructField(name) => yellow + name@ + " "@ + red + sig,
            Instruction::Identifier(value) => yellow + " "@ + value@ + red + " "@ + sig,
            Instruction::If => red + " "@ + sig,
            Instruction::IfBody => red + " "@ + sig,
            Instruction::IfElseIf => red + " "@ + sig,
            Instruction::IfElseIfBody => red + " "@ + sig,
            Instruction::IfElse => red + " "@ + sig,
            Instruction::Function => red + " "@ + sig,
            Instruction::Return => red + " "@ + sig,
            Instruction::ExternFn => red + " "@ + sig,
            Instruction::Struct => red + " "@ + sig,
            Instruction::As => red + " "@ + sig,
            Instruction::Add => red + " "@ + sig,
            Instruction::Subtract => red + " "@ + sig,
            Instruction::Multiply => red + " "@ + sig,
            Instruction::Divide => red + " "@ + sig,
            _ => Seq::empty(),
        }
    }

    /// The text of the instruction's line after its indentation.
    pub open spec fn line_body(self, sig: Seq<char>) -> Seq<char> {
        self.spec_head_color().spec_code() + self.spec_keyword() + self.spec_tail(sig)
            + Fg::Reset.spec_code() + "\n"@
    }

    /// The whole line printed for the instruction with signature `sig`, when the
    /// nesting depth before it is `depth`.
    pub open spec fn line(self, sig: Seq<char>, depth: int) -> Seq<char> {
        self.indent(depth) + self.line_body(sig)
    }

    /// Appends what follows the instruction's name on its line.
    fn push_tail(&self, out: &mut String, sig: &str)
        ensures
            final(out)@ == old(out)@ + self.spec_tail(sig@),
    {
        let yellow = Fg::Yellow.code();
        let red = Fg::Red.code();
        match self {
            Instruction::Module(name) | Instruction::FunctionParameter(name)
            | Instruction::String(name) | Instruction::Float(name) => {
                out.append(yellow);
                out.append(" ");
                out.append(name.as_str());
            },
            Instruction::Call(count) => {
                out.append(yellow);
                out.append(" ");
                push_decimal(out, *count as u64);
            },
            Instruction::Integer(value) => {
                out.append(yellow);
                out.append(" ");
                push_decimal_signed(out, *value);
            },
            Instruction::Bool(value) => {
                out.append(yellow);
                out.append(" ");
                if *value {
                    out.append("true");
                } else {
                    out.append("false");
                }
            },
            Instruction::Let(name) | Instruction::LetMut(name) => {
                out.append(yellow);
                out.append(" ");
                out.append(name.as_str());
                out.append(" ");
                out.append(red);
                out.append(sig);
                out.append(" ");
            },
            Instruction::Import(name) => {
                out.append(yellow);
                out.append(" ");
                out.append(name.as_str());
                out.append(" ");
                out.append(red);
                out.append(sig);
            },
            Instruction::StructField(name) => {
                out.append(yellow);
                out.append(name.as_str());
                out.append(" ");
                out.append(red);
                out.append(sig);
            },
            Instruction::Identifier(value) => {
                out.append(yellow);
                out.append(" ");
                out.append(value.as_str());
                out.append(red);
                out.append(" ");
                out.append(sig);
            },
            Instruction::If | Instruction::IfBody | Instruction::IfElseIf
            | Instruction::IfElseIfBody | Instruction::IfElse | Instruction::Function
            | Instruction::Return | Instruction::ExternFn | Instruction::Struct | Instruction::As
            | Instruction::Add | Instruction::Subtract | Instruction::Multiply
            | Instruction::Divide => {
                out.append(red);
                out.append(" ");
                out.append(sig);
            },
            _ => {},
        }
        assert(out@ =~= old(out)@ + self.spec_tail(sig@));
    }

    /// Whether the instruction opens a scope.
    pub fn is_opener(&self) -> (r: bool)
        ensures
            r == self.opens_scope(),
    {
        match self {
            Instruction::Module(_) | Instruction::If | Instruction::While | Instruction::Function
            | Instruction::Return | Instruction::Let(_) | Instruction::LetMut(_)
            | Instruction::Block | Instruction::Struct => true,
            _ => false,
        }
    }

    /// Whether the instruction closes a scope.
    pub fn is_closer(&self) -> (r: bool)
        ensures
            r == self.closes_scope(),
    {
        match self {
            Instruction::ModuleEnd | Instruction::IfEnd | Instruction::WhileEnd
            | Instruction::FunctionEnd | Instruction::ReturnEnd | Instruction::LetEnd
            | Instruction::LetMutEnd | Instruction::BlockEnd | Instruction::StructEnd => true,
            _ => false,
        }
    }

    /// Whether the instruction can only stand inside an open scope.
    pub fn needs_open_scope(&self) -> (r: bool)
        ensures
            r == self.needs_scope(),
    {
        match self {
            Instruction::ModuleEnd | Instruction::IfEnd | Instruction::WhileEnd
            | Instruction::FunctionEnd | Instruction::ReturnEnd | Instruction::LetEnd
            | Instruction::LetMutEnd | Instruction::BlockEnd | Instruction::StructEnd
            | Instruction::IfBody | Instruction::IfElseIf | Instruction::IfElseIfBody
            | Instruction::IfElse | Instruction::WhileBody
            | Instruction::FunctionParameter(_) => true,
            _ => false,
        }
    }

    /// Appends the instruction's line, with signature `sig`, when the nesting
    /// depth before it is `depth`.
    pub fn write_line(&self, out: &mut String, sig: &str, depth: usize)
        requires
            self.needs_scope() ==> depth >= 1,
        ensures
            final(out)@ == old(out)@ + self.line(sig@, depth as int),
    {
        match self {
            Instruction::StructField(_) => {},
            _ => {
                let level = if self.needs_open_scope() {
                    depth - 1
                } else {
                    depth
                };
                fmt_tab(out, level);
            },
        }
        out.append(self.head_color().code());
        out.append(self.keyword());
        self.push_tail(out, sig);
        out.append(Fg::Reset.code());
        out.append("\n");
        assert(out@ =~= old(out)@ + self.line(sig@, depth as int));
    }
}

/// The nesting depth after the first `k` instructions of `ins`.
pub open spec fn depth_at(ins: Seq<Instruction>, k: nat) -> int
    decreases k,
{
    if k == 0 {
        0
    } else {
        depth_at(ins, (k - 1) as nat) + ins[k - 1].depth_delta()
    }
}

/// Among the first `n` instructions, every one that can only stand inside an
/// open scope comes when a scope is open.
pub open spec fn well_nested(ins: Seq<Instruction>, n: nat) -> bool {
    forall|k: int| 0 <= k < n && (#[trigger] ins[k]).needs_scope() ==> depth_at(ins, k as nat) >= 1
}

/// The listing of the first `k` instructions, each with its signature.
pub open spec fn render_lines(ins: Seq<Instruction>, sigs: Seq<TypeSignature>, k: nat) -> Seq<char>
    decreases k,
{
    if k == 0 {
        Seq::empty()
    } else {
        render_lines(ins, sigs, (k - 1) as nat) + ins[k - 1].line(
            sigs[k - 1]@,
            depth_at(ins, (k - 1) as nat),
        )
    }
}

/// A full ir module that is never usually fully present in the pipeline
#[derive(Debug, Clone)]
pub struct Module {
    /// The name of the module
    pub name: String,
    /// The ir instructions
    pub instructions: Vec<Instruction>,
    /// The signatures of each ir instruction
    pub signatures: Vec<TypeSignature>,
    /// The positions in code of each ir instruction
    pub positions: Vec<Position>,
}

impl Module {
    /// The number of instructions that are listed: those that have a signature.
    pub open spec fn line_count(&self) -> nat {
        if self.instructions@.len() <= self.signatures@.len() {
            self.instructions@.len()
        } else {
            self.signatures@.len()
        }
    }

    /// Each instruction has its signature and its position.
    pub open spec fn aligned(&self) -> bool {
        &&& self.signatures@.len() == self.instructions@.len()
        &&& self.positions@.len() == self.instructions@.len()
    }

    /// The listed instructions nest well (see `well_nested`).
    pub open spec fn nests_well(&self) -> bool {
        well_nested(self.instructions@, self.line_count())
    }

    /// The listing of the module: one line per instruction that has a signature.
    pub open spec fn rendered(&self) -> Seq<char> {
        render_lines(self.instructions@, self.signatures@, self.line_count())
    }

    /// Creates an empty module
    pub fn new() -> (m: Self)
        ensures
            m.name@ == Seq::<char>::empty(),
            m.instructions@ == Seq::<Instruction>::empty(),
            m.signatures@ == Seq::<TypeSignature>::empty(),
            m.positions@ == Seq::<Position>::empty(),
            m.aligned(),
            m.nests_well(),
            m.rendered() == Seq::<char>::empty(),
    {
        Self::default()
    }

    /// Push an instruction into the module
    pub fn push(&mut self, pos: Position, sig: TypeSignature, ins: Instruction)
        ensures
            final(self).positions@ == old(self).positions@.push(pos),
            final(self).signatures@ == old(self).signatures@.push(sig),
            final(self).instructions@ == old(self).instructions@.push(ins),
            final(self).name == old(self).name,
            old(self).aligned() ==> final(self).aligned(),
    {
        self.positions.push(pos);
        self.signatures.push(sig);
        self.instructions.push(ins);
    }

    /// Whether the listed instructions nest well, so that the module can be listed.
    pub fn is_well_nested(&self) -> (r: bool)
        ensures
            r == self.nests_well(),
    {
        let n: usize = if self.instructions.len() <= self.signatures.len() {
            self.instructions.len()
        } else {
            self.signatures.len()
        };
        let mut depth: usize = 0;
        let mut i: usize = 0;
        while i < n
            invariant
                n == self.line_count(),
                i <= n,
                depth <= i,
                depth == depth_at(self.instructions@, i as nat),
                forall|k: int|
                    0 <= k < i && (#[trigger] self.instructions@[k]).needs_scope() ==> depth_at(
                        self.instructions@,
                        k as nat,
                    ) >= 1,
            decreases n - i,
        {
            let ins = &self.instructions[i];
            if ins.needs_open_scope() && depth == 0 {
                assert(!well_nested(self.instructions@, n as nat)) by {
                    assert(self.instructions@[i as int].needs_scope());
                }
                return false;
            }
            if ins.is_opener() {
                depth = depth + 1;
            } else if ins.is_closer() {
                depth = depth - 1;
            }
            i = i + 1;
        }
        true
    }

    /// The listing of the module, one line per instruction: its indentation, its
    /// name and what it holds, in colour.
    pub fn to_string(&self) -> (s: String)
        requires
            self.nests_well(),
        ensures
            s@ == self.rendered(),
    {
        let n: usize = if self.instructions.len() <= self.signatures.len() {
            self.instructions.len()
        } else {
            self.signatures.len()
        };
        let mut out = String::new();
        let mut depth: usize = 0;
        let mut i: usize = 0;
        while i < n
            invariant
                n == self.line_count(),
                i <= n,
                depth <= i,
                depth == depth_at(self.instructions@, i as nat),
                well_nested(self.instructions@, n as nat),
                out@ == render_lines(self.instructions@, self.signatures@, i as nat),
            decreases n - i,
        {
            let ins = &self.instructions[i];
            assert(ins.needs_scope() ==> depth >= 1) by {
                assert(self.instructions@[i as int] == *ins);
            }
            ins.write_line(&mut out, self.signatures[i].as_str(), depth);
            if ins.is_opener() {
                depth = depth + 1;
            } else if ins.is_closer() {
                depth = depth - 1;
            }
            i = i + 1;
        }
        out
    }
}

impl Default for Module {
    fn default() -> (m: Self)
        ensures
            m.name@ == Seq::<char>::empty(),
            m.instructions@ == Seq::<Instruction>::empty(),
            m.signatures@ == Seq::<TypeSignature>::empty(),
            m.positions@ == Seq::<Position>::empty(),
    {
        Module {
            name: String::new(),
            instructions: Vec::new(),
            signatures: Vec::new(),
            positions: Vec::new(),
        }
    }
}

/// The ir that is being passed through the channels between each stage
#[derive(Debug, Clone)]
pub struct ChannelIr {
    /// Position in source code
    pub pos: Position,
    /// Type signature of instruction
    pub sig: TypeSignature,
    /// The instruction itself
    pub ins: Instruction,
}

} // verus!
