use nand2tetris::compiler::class::JackClassCompilerContext;
use nand2tetris::compiler::code::CompileError;
use nand2tetris::compiler::subroutine::JackSubroutineCompilerContext;
use nand2tetris::compiler::vars::{JackTableNames, JackVariable};
use nand2tetris::gramar::ast::{
    JackClass, JackConstantTerm, JackDeclaration, JackDoStatement, JackExpression,
    JackExpressions, JackIfStatement, JackLetStatement, JackReturnStatement, JackStatement,
    JackStatements, JackSubroutine, JackTerm, JackTermPayload, JackWhileStatement,
};
use nand2tetris::gramar::units::segments::JackSegment;
use nand2tetris::gramar::units::subroutins_types::JackSubroutineType;
use nand2tetris::gramar::units::types::{JackBasicType, JackType};
use nand2tetris::gramar::units::var_name::JackVariableName;
use nand2tetris::tokens::{JackInt, JackString, JackSymbol};

fn name(s: &str) -> JackVariableName {
    JackVariableName(s.as_bytes().to_vec())
}

fn num(s: &str) -> JackTerm {
    JackTerm { payload: JackTermPayload::Int(JackInt(s.as_bytes().to_vec())) }
}

fn ident(s: &str) -> JackTerm {
    JackTerm { payload: JackTermPayload::Ident(name(s)) }
}

fn expr(t: JackTerm) -> JackExpression {
    JackExpression { term: t, extra: Vec::new() }
}

fn binary(a: JackTerm, op: JackSymbol, b: JackTerm) -> JackExpression {
    JackExpression { term: a, extra: vec![(op, b)] }
}

fn paren(e: JackExpression) -> JackTerm {
    JackTerm { payload: JackTermPayload::Expression(Box::new(e)) }
}

fn call(class: &str, f: &str, args: Vec<JackExpression>) -> JackTerm {
    JackTerm {
        payload: JackTermPayload::FunctionCall(name(class), name(f), JackExpressions { data: args }),
    }
}

fn let_(var: &str, e: JackExpression) -> Box<JackStatement> {
    Box::new(JackStatement::Let(JackLetStatement { variable: ident(var), expression: e }))
}

fn do_(t: JackTerm) -> Box<JackStatement> {
    Box::new(JackStatement::Do(JackDoStatement { call: t }))
}

fn ret(e: Option<JackExpression>) -> Box<JackStatement> {
    Box::new(JackStatement::Return(JackReturnStatement { expression: e }))
}

fn decl(segment: JackSegment, kind: JackType, names: &[&str]) -> JackDeclaration {
    JackDeclaration { segment, kind, names: names.iter().map(|n| name(n)).collect() }
}

fn int_type() -> JackType {
    JackType::Basic(JackBasicType::Int)
}

fn void_type() -> JackType {
    JackType::Basic(JackBasicType::Void)
}

fn class(n: &str, vars: Vec<JackDeclaration>) -> JackClass {
    JackClass { name: name(n), vars, subroutines: Vec::new() }
}

fn subroutine(
    key: JackSubroutineType,
    kind: JackType,
    n: &str,
    vars: Vec<JackDeclaration>,
    statements: Vec<Box<JackStatement>>,
) -> JackSubroutine {
    JackSubroutine { key, kind, name: name(n), vars, statements: JackStatements(statements) }
}

fn compile(
    ctx: &JackClassCompilerContext,
    sub: JackSubroutine,
    skip: bool,
    strict: bool,
) -> Result<Vec<String>, CompileError> {
    let mut c = JackSubroutineCompilerContext::init(ctx, sub, skip, strict);
    c.check()?;
    let mut out = Vec::new();
    while let Some(i) = c.next() {
        out.push(String::from_utf8(i.to_text()).unwrap());
    }
    Ok(out)
}

#[test]
fn compiles_function_with_locals_and_call() {
    let mut cls = class("Main", vec![decl(JackSegment::Static, int_type(), &["count"])]);
    let ctx = JackClassCompilerContext::init(&mut cls);
    let sub = subroutine(
        JackSubroutineType::Function,
        void_type(),
        "main",
        vec![decl(JackSegment::Lcl, int_type(), &["a"])],
        vec![
            let_("a", binary(num("1"), JackSymbol::Plus, num("2"))),
            do_(call("Output", "printInt", vec![expr(ident("a"))])),
            ret(None),
        ],
    );
    let out = compile(&ctx, sub, true, false).unwrap();
    assert_eq!(
        out,
        vec![
            "function Main.main 1",
            "push constant 1",
            "push constant 2",
            "add",
            "pop local 0",
            "push local 0",
            "call Output.printInt 1",
            "pop temp 0",
            "push constant 0",
            "return",
        ]
    );
}

#[test]
fn compiles_while_and_if_with_labels() {
    let mut cls = class("Main", vec![]);
    let ctx = JackClassCompilerContext::init(&mut cls);
    let while_st = Box::new(JackStatement::While(JackWhileStatement {
        condition: paren(binary(ident("i"), JackSymbol::Less, num("10"))),
        statements: JackStatements(vec![let_("i", binary(ident("i"), JackSymbol::Plus, num("1")))]),
    }));
    let if_st = Box::new(JackStatement::If(JackIfStatement {
        condition: ident("i"),
        statements: JackStatements(vec![do_(call("Sys", "halt", vec![]))]),
        else_statements: Some(JackStatements(vec![ret(None)])),
    }));
    let sub = subroutine(
        JackSubroutineType::Function,
        void_type(),
        "f",
        vec![decl(JackSegment::Lcl, int_type(), &["i"])],
        vec![let_("i", expr(num("0"))), while_st, if_st, ret(None)],
    );
    let out = compile(&ctx, sub, false, true).unwrap();
    assert_eq!(
        out,
        vec![
            "function Main.f 1",
            "push constant 0",
            "pop local 0",
            "label WHILE_EXP_Main_f_0",
            "push local 0",
            "push constant 10",
            "lt",
            "not",
            "if-goto WHILE_END_Main_f_0",
            "push local 0",
            "push constant 1",
            "add",
            "pop local 0",
            "goto WHILE_EXP_Main_f_0",
            "label WHILE_END_Main_f_0",
            "push local 0",
            "if-goto IF_TRUE_Main_f_0",
            "goto IF_FALSE_Main_f_0",
            "label IF_TRUE_Main_f_0",
            "call Sys.halt 0",
            "pop temp 0",
            "goto IF_END_Main_f_0",
            "label IF_FALSE_Main_f_0",
            "push constant 0",
            "return",
            "label IF_END_Main_f_0",
            "push constant 0",
            "return",
        ]
    );
}

#[test]
fn compiles_constructor_and_method() {
    let mut cls = class("Point", vec![decl(JackSegment::Field, int_type(), &["x"])]);
    let ctx = JackClassCompilerContext::init(&mut cls);
    assert_eq!(ctx.class().0, b"Point".to_vec());
    assert_eq!(ctx.vars.fields(), 1);
    let this = JackExpression {
        term: JackTerm { payload: JackTermPayload::Const(JackConstantTerm::This) },
        extra: Vec::new(),
    };
    let ctor = subroutine(
        JackSubroutineType::Constructor,
        JackType::Class(b"Point".to_vec()),
        "new",
        vec![decl(JackSegment::Arg, int_type(), &["ax"])],
        vec![let_("x", expr(ident("ax"))), ret(Some(this))],
    );
    let out = compile(&ctx, ctor, false, true).unwrap();
    assert_eq!(
        out,
        vec![
            "function Point.new 0",
            "push constant 1",
            "call Memory.alloc 1",
            "pop pointer 0",
            "push argument 0",
            "pop this 0",
            "push pointer 0",
            "return",
        ]
    );
    let getter = subroutine(
        JackSubroutineType::Method,
        int_type(),
        "getx",
        vec![],
        vec![ret(Some(expr(ident("x"))))],
    );
    let out = compile(&ctx, getter, false, true).unwrap();
    assert_eq!(
        out,
        vec!["function Point.getx 0", "push argument 0", "pop pointer 0", "push this 0", "return"]
    );
}

#[test]
fn compiles_string_and_unary_and_array() {
    let mut cls = class("Main", vec![]);
    let ctx = JackClassCompilerContext::init(&mut cls);
    let s = JackTerm { payload: JackTermPayload::String(JackString(b"Hi".to_vec())) };
    let neg = JackTerm { payload: JackTermPayload::Unary(JackSymbol::Minus, Box::new(num("5"))) };
    let elem = JackTerm {
        payload: JackTermPayload::ArrayElem(name("arr"), Box::new(expr(num("2")))),
    };
    let sub = subroutine(
        JackSubroutineType::Function,
        int_type(),
        "g",
        vec![
            decl(JackSegment::Lcl, JackType::Basic(JackBasicType::Arr), &["arr"]),
            decl(JackSegment::Lcl, int_type(), &["n"]),
        ],
        vec![
            do_(call("Output", "printString", vec![expr(s)])),
            let_("n", expr(neg)),
            ret(Some(binary(elem, JackSymbol::Multiply, num("3")))),
        ],
    );
    let out = compile(&ctx, sub, true, true).unwrap();
    assert_eq!(
        out,
        vec![
            "function Main.g 2",
            "push constant 2",
            "call String.new 1",
            "push constant 72",
            "call String.appendChar 2",
            "push constant 105",
            "call String.appendChar 2",
            "call Output.printString 1",
            "pop temp 0",
            "push constant 5",
            "neg",
            "pop local 1",
            "push local 0",
            "push constant 2",
            "add",
            "pop pointer 1",
            "push that 0",
            "push constant 3",
            "call Math.multiply 2",
            "return",
        ]
    );
}

#[test]
fn reports_what_would_stop_the_compilation() {
    let mut cls = class("Main", vec![]);
    let ctx = JackClassCompilerContext::init(&mut cls);
    let unassigned = subroutine(
        JackSubroutineType::Function,
        void_type(),
        "h",
        vec![decl(JackSegment::Lcl, int_type(), &["a"])],
        vec![do_(call("Output", "printInt", vec![expr(ident("a"))])), ret(None)],
    );
    assert_eq!(compile(&ctx, unassigned, false, false), Err(CompileError::UsedBeforeAssigned));
    let undeclared = subroutine(
        JackSubroutineType::Function,
        void_type(),
        "h",
        vec![],
        vec![do_(call("Output", "printInt", vec![expr(ident("b"))])), ret(None)],
    );
    assert_eq!(compile(&ctx, undeclared, true, true), Err(CompileError::NotDeclared));
    let lenient = subroutine(
        JackSubroutineType::Function,
        void_type(),
        "h",
        vec![],
        vec![do_(call("Output", "printInt", vec![expr(ident("b"))])), ret(None)],
    );
    assert_eq!(
        compile(&ctx, lenient, true, false).unwrap()[1],
        "push constant 0".to_string()
    );
    let void_value = subroutine(
        JackSubroutineType::Function,
        void_type(),
        "h",
        vec![],
        vec![ret(Some(expr(num("1"))))],
    );
    assert_eq!(compile(&ctx, void_value, true, false), Err(CompileError::VoidReturnsValue));
    let missing = subroutine(JackSubroutineType::Function, int_type(), "h", vec![], vec![ret(None)]);
    assert_eq!(compile(&ctx, missing, true, false), Err(CompileError::MissingReturnValue));
    let big = subroutine(
        JackSubroutineType::Function,
        int_type(),
        "h",
        vec![],
        vec![ret(Some(expr(num("40000"))))],
    );
    assert_eq!(compile(&ctx, big, true, false), Err(CompileError::IntTooBig));
    let ctor = subroutine(
        JackSubroutineType::Constructor,
        JackType::Class(b"Main".to_vec()),
        "new",
        vec![],
        vec![ret(Some(expr(num("1"))))],
    );
    assert_eq!(compile(&ctx, ctor, true, false), Err(CompileError::ConstructorReturnsOther));
    let unknown = subroutine(
        JackSubroutineType::Function,
        void_type(),
        "h",
        vec![],
        vec![let_("zz", expr(num("1"))), ret(None)],
    );
    assert_eq!(compile(&ctx, unknown, true, false), Err(CompileError::UnknownVariable));
    let bad_op = subroutine(
        JackSubroutineType::Function,
        int_type(),
        "h",
        vec![],
        vec![ret(Some(binary(num("1"), JackSymbol::Comma, num("2"))))],
    );
    assert_eq!(compile(&ctx, bad_op, true, false), Err(CompileError::UnknownOperator));
}

#[test]
fn function_cannot_read_fields() {
    let mut cls = class("Main", vec![decl(JackSegment::Field, int_type(), &["f"])]);
    let ctx = JackClassCompilerContext::init(&mut cls);
    let sub = subroutine(
        JackSubroutineType::Function,
        int_type(),
        "h",
        vec![],
        vec![ret(Some(expr(ident("f"))))],
    );
    assert_eq!(compile(&ctx, sub, true, true), Err(CompileError::NotDeclared));
}

#[test]
fn table_numbers_declared_names_in_order() {
    let mut table = JackTableNames::new();
    let mut d = decl(JackSegment::Lcl, int_type(), &["a", "b", "c"]);
    table.migrate(&mut d);
    assert_eq!(table.local(), 3);
    assert_eq!(table.fields(), 0);
    let a: &JackVariable = table.get(&name("a")).unwrap();
    assert_eq!(a.idx, 0);
    assert_eq!(table.get(&name("b")).unwrap().idx, 1);
    assert_eq!(table.get(&name("c")).unwrap().idx, 2);
    assert!(table.get(&name("d")).is_none());
    assert!(d.names.iter().all(|n| n.0.is_empty()));
    let mut again = decl(JackSegment::Lcl, JackType::Basic(JackBasicType::Char), &["b"]);
    table.migrate(&mut again);
    assert_eq!(table.get(&name("b")).unwrap().idx, 3);
    assert_eq!(table.local(), 4);
    let v = table.get(&name("b")).unwrap();
    assert_eq!(String::from_utf8(v.as_asm().to_text()).unwrap(), "push local 3");
    assert_eq!(String::from_utf8(v.as_assign_asm().to_text()).unwrap(), "pop local 3");
}

#[test]
fn reports_misused_terms() {
    let mut cls = class("Main", vec![]);
    let ctx = JackClassCompilerContext::init(&mut cls);
    let elem = |n: &str| JackTerm {
        payload: JackTermPayload::ArrayElem(name(n), Box::new(expr(num("0")))),
    };
    let unknown_array = subroutine(
        JackSubroutineType::Function,
        int_type(),
        "h",
        vec![],
        vec![ret(Some(expr(elem("q"))))],
    );
    assert_eq!(compile(&ctx, unknown_array, true, false), Err(CompileError::UnknownArray));
    let not_array = subroutine(
        JackSubroutineType::Function,
        int_type(),
        "h",
        vec![decl(JackSegment::Lcl, int_type(), &["a"])],
        vec![let_("a", expr(num("1"))), ret(Some(expr(elem("a"))))],
    );
    assert_eq!(compile(&ctx, not_array, true, false), Err(CompileError::NotAnArray));
    let plus = JackTerm {
        payload: JackTermPayload::Unary(JackSymbol::Plus, Box::new(num("1"))),
    };
    let unary = subroutine(
        JackSubroutineType::Function,
        int_type(),
        "h",
        vec![],
        vec![ret(Some(expr(plus)))],
    );
    assert_eq!(compile(&ctx, unary, true, false), Err(CompileError::UnknownUnary));
    let to_number = Box::new(JackStatement::Let(JackLetStatement {
        variable: num("3"),
        expression: expr(num("1")),
    }));
    let not_assignable = subroutine(
        JackSubroutineType::Function,
        void_type(),
        "h",
        vec![],
        vec![to_number, ret(None)],
    );
    assert_eq!(compile(&ctx, not_assignable, true, false), Err(CompileError::NotAssignable));
    let no_class = subroutine(
        JackSubroutineType::Function,
        void_type(),
        "h",
        vec![decl(JackSegment::Lcl, int_type(), &["a"])],
        vec![let_("a", expr(num("1"))), do_(call("a", "foo", vec![])), ret(None)],
    );
    assert_eq!(compile(&ctx, no_class, true, false), Err(CompileError::NoClassName));
}
