use core_ir::ansi::Fg;
use core_ir::ir::{ChannelIr, Instruction, Module};
use core_ir::position::Position;
use core_ir::signature::TypeSignature;
use core_ir::text::{fmt_tab, push_decimal, push_decimal_signed, repeat_char, TAB_WIDTH};

const CYAN: &str = "\x1b[36m";
const YELLOW: &str = "\x1b[33m";
const RED: &str = "\x1b[31m";
const GREEN: &str = "\x1b[32m";
const RESET: &str = "\x1b[39m";

fn sig(text: &str) -> TypeSignature {
    TypeSignature::new(text.to_string())
}

fn module_of(items: Vec<(Instruction, &str)>) -> Module {
    let mut m = Module::new();
    for (i, (ins, s)) in items.into_iter().enumerate() {
        m.push(Position::new(i + 1, 1), sig(s), ins);
    }
    m
}

fn listing(items: Vec<(Instruction, &str)>) -> String {
    let m = module_of(items);
    assert!(m.is_well_nested());
    m.to_string()
}

#[test]
fn new_module_is_empty() {
    let m = Module::new();
    assert_eq!(m.name, "");
    assert!(m.instructions.is_empty());
    assert!(m.signatures.is_empty());
    assert!(m.positions.is_empty());
    assert!(m.is_well_nested());
    assert_eq!(m.to_string(), "");
    let d = Module::default();
    assert!(d.instructions.is_empty());
}

#[test]
fn push_appends_to_all_three_vectors() {
    let mut m = Module::new();
    m.push(Position::new(3, 7), sig("i32"), Instruction::Integer(5));
    m.push(Position::new(4, 1), sig("bool"), Instruction::Bool(true));
    assert_eq!(m.positions, vec![Position::new(3, 7), Position::new(4, 1)]);
    assert_eq!(m.signatures.len(), 2);
    assert_eq!(m.signatures[0].as_str(), "i32");
    assert_eq!(m.signatures[1].as_str(), "bool");
    assert_eq!(m.instructions, vec![Instruction::Integer(5), Instruction::Bool(true)]);
    assert_eq!(m.name, "");
}

#[test]
fn repeat_char_repeats() {
    assert_eq!(repeat_char('a', 3), "aaa");
    assert_eq!(repeat_char(' ', 0), "");
    assert_eq!(repeat_char('é', 2), "éé");
}

#[test]
fn fmt_tab_writes_bars_and_spaces() {
    let mut s = String::from("x");
    fmt_tab(&mut s, 0);
    assert_eq!(s, "x");
    let mut s = String::new();
    fmt_tab(&mut s, 2);
    assert_eq!(TAB_WIDTH, 4);
    assert_eq!(s, "|    |    ");
}

#[test]
fn decimals_are_printed_like_std() {
    for n in [0u64, 7, 10, 99, 100, 255, 1234567890, u64::MAX] {
        let mut s = String::new();
        push_decimal(&mut s, n);
        assert_eq!(s, n.to_string());
    }
    for i in [0isize, -1, 9, -10, 42, -105, isize::MAX, isize::MIN] {
        let mut s = String::new();
        push_decimal_signed(&mut s, i);
        assert_eq!(s, i.to_string());
    }
}

#[test]
fn colour_codes() {
    assert_eq!(Fg::Cyan.code(), CYAN);
    assert_eq!(Fg::Yellow.code(), YELLOW);
    assert_eq!(Fg::Red.code(), RED);
    assert_eq!(Fg::Green.code(), GREEN);
    assert_eq!(Fg::Reset.code(), RESET);
}

#[test]
fn function_listing_is_indented_by_depth() {
    let out = listing(vec![
        (Instruction::Function, "fn(i32) -> i32"),
        (Instruction::FunctionParameter("x".to_string()), "i32"),
        (Instruction::Return, "i32"),
        (Instruction::Identifier("x".to_string()), "i32"),
        (Instruction::ReturnEnd, ""),
        (Instruction::FunctionEnd, ""),
    ]);
    let expected = format!(
        "{C}function{R} fn(i32) -> i32{Z}\n\
         {C}function parameter{Y} x{Z}\n\
         |    {C}return{R} i32{Z}\n\
         |    |    {G}identifier{Y} x{R} i32{Z}\n\
         |    {C}return end{Z}\n\
         {C}function end{Z}\n",
        C = CYAN,
        R = RED,
        Y = YELLOW,
        G = GREEN,
        Z = RESET
    );
    assert_eq!(out, expected);
}

#[test]
fn module_let_and_values() {
    let out = listing(vec![
        (Instruction::Module("main".to_string()), ""),
        (Instruction::LetMut("count".to_string()), "i32"),
        (Instruction::Integer(-7), "i32"),
        (Instruction::LetMutEnd, ""),
        (Instruction::Let("f".to_string()), "f32"),
        (Instruction::Float(1.5f64.to_string()), "f32"),
        (Instruction::LetEnd, ""),
        (Instruction::ModuleEnd, ""),
    ]);
    let expected = format!(
        "{C}module{Y} main{Z}\n\
         |    {C}let mut{Y} count {R}i32 {Z}\n\
         |    |    {G}integer{Y} -7{Z}\n\
         |    {C}let mut end{Z}\n\
         |    {C}let{Y} f {R}f32 {Z}\n\
         |    |    {G}float{Y} 1.5{Z}\n\
         |    {C}let end{Z}\n\
         {C}module end{Z}\n",
        C = CYAN,
        R = RED,
        Y = YELLOW,
        G = GREEN,
        Z = RESET
    );
    assert_eq!(out, expected);
}

#[test]
fn if_chain_bodies_print_at_the_opener_level() {
    let out = listing(vec![
        (Instruction::Block, ""),
        (Instruction::If, "i32"),
        (Instruction::Bool(false), "bool"),
        (Instruction::IfBody, "i32"),
        (Instruction::IfElseIf, "i32"),
        (Instruction::IfElseIfBody, "i32"),
        (Instruction::IfElse, "i32"),
        (Instruction::IfEnd, ""),
        (Instruction::BlockEnd, ""),
    ]);
    let expected = format!(
        "{C}block{Z}\n\
         |    {C}if{R} i32{Z}\n\
         |    |    {G}bool{Y} false{Z}\n\
         |    {C}if body{R} i32{Z}\n\
         |    {C}if else{R} i32{Z}\n\
         |    {C}if else body{R} i32{Z}\n\
         |    {C}else{R} i32{Z}\n\
         |    {C}if end{Z}\n\
         {C}block end{Z}\n",
        C = CYAN,
        R = RED,
        Y = YELLOW,
        G = GREEN,
        Z = RESET
    );
    assert_eq!(out, expected);
}

#[test]
fn while_loop_and_operators() {
    let out = listing(vec![
        (Instruction::While, ""),
        (Instruction::Identifier("i".to_string()), "i32"),
        (Instruction::Integer(10), "i32"),
        (Instruction::Less, "bool"),
        (Instruction::WhileBody, ""),
        (Instruction::Identifier("i".to_string()), "i32"),
        (Instruction::Integer(1), "i32"),
        (Instruction::Add, "i32"),
        (Instruction::Assign, "i32"),
        (Instruction::Statement, ""),
        (Instruction::WhileEnd, ""),
    ]);
    let expected = format!(
        "{C}while{Z}\n\
         |    {G}identifier{Y} i{R} i32{Z}\n\
         |    {G}integer{Y} 10{Z}\n\
         |    {G}less{Z}\n\
         {C}while body{Z}\n\
         |    {G}identifier{Y} i{R} i32{Z}\n\
         |    {G}integer{Y} 1{Z}\n\
         |    {G}add{R} i32{Z}\n\
         |    {G}assign{Z}\n\
         |    {G}statement{Z}\n\
         {C}while end{Z}\n",
        C = CYAN,
        R = RED,
        Y = YELLOW,
        G = GREEN,
        Z = RESET
    );
    assert_eq!(out, expected);
}

#[test]
fn struct_fields_have_no_indentation() {
    let out = listing(vec![
        (Instruction::Let("P".to_string()), "struct"),
        (Instruction::Struct, "{x: i32}"),
        (Instruction::StructField("x".to_string()), "i32"),
        (Instruction::StructEnd, ""),
        (Instruction::LetEnd, ""),
    ]);
    let expected = format!(
        "{C}let{Y} P {R}struct {Z}\n\
         |    {C}struct{R} {{x: i32}}{Z}\n\
         {C}struct field {Y}x {R}i32{Z}\n\
         |    {C}struct end{Z}\n\
         {C}let end{Z}\n",
        C = CYAN,
        R = RED,
        Y = YELLOW,
        Z = RESET
    );
    assert_eq!(out, expected);
}

#[test]
fn every_flat_instruction_line() {
    let cases: Vec<(Instruction, String)> = vec![
        (Instruction::Import("std".to_string()), format!("{CYAN}import{YELLOW} std {RED}mod{RESET}\n")),
        (Instruction::ExternFn, format!("{CYAN}extern fn{RED} mod{RESET}\n")),
        (Instruction::Call(255), format!("{CYAN}call{YELLOW} 255{RESET}\n")),
        (Instruction::As, format!("{CYAN}as{RED} mod{RESET}\n")),
        (Instruction::String("hi there".to_string()), format!("{GREEN}string{YELLOW} hi there{RESET}\n")),
        (Instruction::Bool(true), format!("{GREEN}bool{YELLOW} true{RESET}\n")),
        (Instruction::Float(0.1f64.to_string()), format!("{GREEN}float{YELLOW} 0.1{RESET}\n")),
        (Instruction::Integer(isize::MIN), format!("{GREEN}integer{YELLOW} {}{RESET}\n", isize::MIN)),
        (Instruction::Subtract, format!("{GREEN}sub{RED} mod{RESET}\n")),
        (Instruction::Multiply, format!("{GREEN}mul{RED} mod{RESET}\n")),
        (Instruction::Divide, format!("{GREEN}div{RED} mod{RESET}\n")),
        (Instruction::LessEqual, format!("{GREEN}less equal{RESET}\n")),
        (Instruction::Greater, format!("{GREEN}greater{RESET}\n")),
        (Instruction::GreaterEqual, format!("{GREEN}greater equal{RESET}\n")),
        (Instruction::Equal, format!("{GREEN}equal{RESET}\n")),
        (Instruction::NotEqual, format!("{GREEN}not equal{RESET}\n")),
        (Instruction::And, format!("{GREEN}and{RESET}\n")),
        (Instruction::Or, format!("{GREEN}or{RESET}\n")),
        (Instruction::Negate, format!("{GREEN}negate{RESET}\n")),
        (Instruction::Not, format!("{GREEN}not{RESET}\n")),
        (Instruction::Call(0), format!("{CYAN}call{YELLOW} 0{RESET}\n")),
    ];
    for (ins, expected) in cases {
        assert_eq!(listing(vec![(ins, "mod")]), expected);
    }
}

#[test]
fn write_line_at_depth() {
    let mut out = String::new();
    Instruction::BlockEnd.write_line(&mut out, "", 3);
    assert_eq!(out, format!("|    |    {CYAN}block end{RESET}\n"));
    let mut out = String::new();
    Instruction::Not.write_line(&mut out, "bool", 1);
    assert_eq!(out, format!("|    {GREEN}not{RESET}\n"));
}

#[test]
fn only_instructions_with_signatures_are_listed() {
    let mut m = Module::new();
    m.push(Position::new(1, 1), sig("i32"), Instruction::Integer(1));
    m.instructions.push(Instruction::Integer(2));
    assert_eq!(m.to_string(), format!("{GREEN}integer{YELLOW} 1{RESET}\n"));
}

#[test]
fn badly_nested_modules_are_detected() {
    assert!(!module_of(vec![(Instruction::BlockEnd, "")]).is_well_nested());
    assert!(!module_of(vec![(Instruction::IfBody, "")]).is_well_nested());
    assert!(!module_of(vec![
        (Instruction::Block, ""),
        (Instruction::BlockEnd, ""),
        (Instruction::FunctionParameter("x".to_string()), "i32"),
    ])
    .is_well_nested());
    assert!(module_of(vec![
        (Instruction::Block, ""),
        (Instruction::Block, ""),
        (Instruction::BlockEnd, ""),
    ])
    .is_well_nested());
    assert!(module_of(vec![(Instruction::StructField("x".to_string()), "i32")]).is_well_nested());
}

#[test]
fn pushing_appends_one_line() {
    let mut m = module_of(vec![(Instruction::Block, "")]);
    let before = m.to_string();
    m.push(Position::new(2, 1), sig("i32"), Instruction::Integer(3));
    let after = m.to_string();
    assert_eq!(after, format!("{before}|    {GREEN}integer{YELLOW} 3{RESET}\n"));
}

#[test]
fn scope_end_aligns_with_its_opener() {
    let out = listing(vec![
        (Instruction::Block, ""),
        (Instruction::Return, "i32"),
        (Instruction::Block, ""),
        (Instruction::BlockEnd, ""),
        (Instruction::ReturnEnd, ""),
        (Instruction::BlockEnd, ""),
    ]);
    let lines: Vec<&str> = out.lines().collect();
    let indent = |l: &str| l.find('\x1b').unwrap();
    assert_eq!(indent(lines[1]), indent(lines[4]));
    assert_eq!(indent(lines[2]), indent(lines[3]));
    assert_eq!(indent(lines[0]), indent(lines[5]));
    assert_eq!(indent(lines[2]), indent(lines[1]) + 1 + TAB_WIDTH);
}

#[test]
fn channel_ir_holds_its_parts() {
    let c = ChannelIr { pos: Position::new(2, 5), sig: sig("bool"), ins: Instruction::Not };
    assert_eq!(c.pos, Position::new(2, 5));
    assert_eq!(c.sig.as_str(), "bool");
    assert_eq!(c.ins, Instruction::Not);
}
