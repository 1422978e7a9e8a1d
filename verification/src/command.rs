//! The command language: the tagged command variants, expressions at the
//! granularity the interpreter inspects them, identity configurations, and
//! the assertion protocol over evaluated values.

use vstd::prelude::*;
use crate::value::{Value, ValueModel, subeq_model, values_equal, sub_equal};
use crate::Error;

verus! {

broadcast use vstd::seq::axiom_seq_index_decreases, vstd::seq::axiom_seq_subrange_decreases,
    vstd::std_specs::vec::axiom_vec_decreases_to_view;

/// An expression, seen from the interpreter: a literal value, a variable
/// reference, or a remote canister call (carried as opaque call text for the
/// expression engine; issuing it is the environment's business).
#[derive(Debug, Clone)]
pub enum Exp {
    Const(Value),
    Var(String),
    Call(Vec<u8>),
}

impl Exp {
    /// Whether evaluating this expression issues a remote call.
    pub fn is_call(&self) -> (r: bool)
        ensures
            r == (self is Call),
    {
        match self {
            Exp::Call(_) => true,
            _ => false,
        }
    }
}

#[derive(Debug, Clone)]
pub enum IdentityConfig {
    Empty,
    Pem(Vec<u8>),
    Hsm { slot_index: usize, key_id: String },
}

#[derive(Debug, Clone, Copy, PartialEq)]
pub enum BinOp {
    Equal,
    SubEqual,
    NotEqual,
}

#[derive(Debug)]
pub enum Command {
    Config(Vec<u8>),
    Show(Exp),
    Let(String, Exp),
    Assert(BinOp, Exp, Exp),
    Import(String, String, Option<Vec<u8>>),
    Load(Exp),
    Identity(String, IdentityConfig),
    Func { name: String, args: Vec<String>, body: Vec<Command> },
    While { cond: Exp, body: Vec<Command> },
    If { cond: Exp, then: Vec<Command>, else_: Vec<Command> },
}

/// An ordered command list as the parser produces it, each command with its
/// source byte range for the verbose echo.
#[derive(Debug)]
pub struct Commands(pub Vec<(Command, (usize, usize))>);

/// Structural copy of an expression.
pub fn dup_exp(e: &Exp) -> (r: Exp)
    ensures
        exp_model(r) == exp_model(*e),
{
    match e {
        Exp::Const(v) => Exp::Const(crate::value::dup_value(v)),
        Exp::Var(x) => Exp::Var(x.clone()),
        Exp::Call(d) => Exp::Call(crate::value::dup_bytes(d)),
    }
}

/// Structural copy of a parameter-name list.
pub fn dup_strs(a: &Vec<String>) -> (r: Vec<String>)
    ensures
        strs_model(r@) == strs_model(a@),
{
    let mut r: Vec<String> = Vec::new();
    let mut i: usize = 0;
    while i < a.len()
        invariant
            i <= a@.len(),
            r@.len() == i,
            forall|j: int| 0 <= j < i ==> r@[j]@ == a@[j]@,
        decreases a@.len() - i,
    {
        r.push(a[i].clone());
        i = i + 1;
    }
    proof {
        assert(strs_model(r@) =~= strs_model(a@));
    }
    r
}

/// Structural copy of a command. Commands move into the executor when they
/// run, so loop bodies are re-run from a copy equal to the original.
pub fn dup_command(c: &Command) -> (r: Command)
    ensures
        cmd_model(r) == cmd_model(*c),
    decreases c,
{
    match c {
        Command::Config(t) => Command::Config(crate::value::dup_bytes(t)),
        Command::Show(e) => Command::Show(dup_exp(e)),
        Command::Let(n, e) => Command::Let(n.clone(), dup_exp(e)),
        Command::Assert(op, l, r2) => Command::Assert(*op, dup_exp(l), dup_exp(r2)),
        Command::Import(n, p, d) => Command::Import(
            n.clone(),
            p.clone(),
            match d {
                Option::Some(x) => Option::Some(crate::value::dup_bytes(x)),
                Option::None => Option::None,
            },
        ),
        Command::Load(e) => Command::Load(dup_exp(e)),
        Command::Identity(n, cfg) => Command::Identity(
            n.clone(),
            match cfg {
                IdentityConfig::Empty => IdentityConfig::Empty,
                IdentityConfig::Pem(p) => IdentityConfig::Pem(crate::value::dup_bytes(p)),
                IdentityConfig::Hsm { slot_index, key_id } => IdentityConfig::Hsm {
                    slot_index: *slot_index,
                    key_id: key_id.clone(),
                },
            },
        ),
        Command::Func { name, args, body } => Command::Func {
            name: name.clone(),
            args: dup_strs(args),
            body: dup_commands(body),
        },
        Command::While { cond, body } => Command::While {
            cond: dup_exp(cond),
            body: dup_commands(body),
        },
        Command::If { cond, then, else_ } => Command::If {
            cond: dup_exp(cond),
            then: dup_commands(then),
            else_: dup_commands(else_),
        },
    }
}

/// Structural copy of a command list.
pub fn dup_commands(v: &Vec<Command>) -> (r: Vec<Command>)
    ensures
        cmds_model(r@) == cmds_model(v@),
    decreases v,
{
    broadcast use vstd::std_specs::vec::axiom_vec_index_decreases;

    let mut r: Vec<Command> = Vec::new();
    let mut i: usize = 0;
    while i < v.len()
        invariant
            i <= v@.len(),
            r@.len() == i,
            forall|j: int| 0 <= j < i ==> #[trigger] cmd_model(r@[j]) == cmd_model(v@[j]),
        decreases v@.len() - i,
    {
        r.push(dup_command(&v[i]));
        i = i + 1;
    }
    proof {
        lemma_cmds_model_index(r@);
        lemma_cmds_model_index(v@);
        assert(cmds_model(r@) =~= cmds_model(v@));
    }
    r
}

/// Mathematical image of an expression.
pub enum ExpModel {
    Const(ValueModel),
    Var(Seq<char>),
    Call(Seq<u8>),
}

pub open spec fn exp_model(e: Exp) -> ExpModel {
    match e {
        Exp::Const(v) => ExpModel::Const(v@),
        Exp::Var(x) => ExpModel::Var(x@),
        Exp::Call(d) => ExpModel::Call(d@),
    }
}

/// Mathematical image of an identity configuration.
pub enum IdentityConfigModel {
    Empty,
    Pem(Seq<u8>),
    Hsm(usize, Seq<char>),
}

pub open spec fn identity_config_model(c: IdentityConfig) -> IdentityConfigModel {
    match c {
        IdentityConfig::Empty => IdentityConfigModel::Empty,
        IdentityConfig::Pem(p) => IdentityConfigModel::Pem(p@),
        IdentityConfig::Hsm { slot_index, key_id } => IdentityConfigModel::Hsm(
            slot_index,
            key_id@,
        ),
    }
}

pub open spec fn strs_model(a: Seq<String>) -> Seq<Seq<char>> {
    Seq::new(a.len(), |i: int| a[i]@)
}

/// Mathematical image of a command, its sub-lists taken elementwise.
pub enum CommandModel {
    Config(Seq<u8>),
    Show(ExpModel),
    Let(Seq<char>, ExpModel),
    Assert(BinOp, ExpModel, ExpModel),
    Import(Seq<char>, Seq<char>, Option<Seq<u8>>),
    Load(ExpModel),
    Identity(Seq<char>, IdentityConfigModel),
    Func { name: Seq<char>, args: Seq<Seq<char>>, body: Seq<CommandModel> },
    While { cond: ExpModel, body: Seq<CommandModel> },
    If { cond: ExpModel, then: Seq<CommandModel>, else_: Seq<CommandModel> },
}

pub open spec fn cmd_model(c: Command) -> CommandModel
    decreases c,
{
    match c {
        Command::Config(t) => CommandModel::Config(t@),
        Command::Show(e) => CommandModel::Show(exp_model(e)),
        Command::Let(n, e) => CommandModel::Let(n@, exp_model(e)),
        Command::Assert(op, l, r) => CommandModel::Assert(op, exp_model(l), exp_model(r)),
        Command::Import(n, p, d) => CommandModel::Import(
            n@,
            p@,
            match d {
                Option::Some(x) => Option::Some(x@),
                Option::None => Option::None,
            },
        ),
        Command::Load(e) => CommandModel::Load(exp_model(e)),
        Command::Identity(n, cfg) => CommandModel::Identity(n@, identity_config_model(cfg)),
        Command::Func { name, args, body } => CommandModel::Func {
            name: name@,
            args: strs_model(args@),
            body: cmds_model(body@),
        },
        Command::While { cond, body } => CommandModel::While {
            cond: exp_model(cond),
            body: cmds_model(body@),
        },
        Command::If { cond, then, else_ } => CommandModel::If {
            cond: exp_model(cond),
            then: cmds_model(then@),
            else_: cmds_model(else_@),
        },
    }
}

pub open spec fn cmds_model(s: Seq<Command>) -> Seq<CommandModel>
    decreases s,
{
    if s.len() == 0 {
        Seq::empty()
    } else {
        seq![cmd_model(s[0])] + cmds_model(s.drop_first())
    }
}

/// A command list's image is its commands' images, elementwise.
pub proof fn lemma_cmds_model_index(s: Seq<Command>)
    ensures
        cmds_model(s).len() == s.len(),
        forall|i: int| 0 <= i < s.len() ==> #[trigger] cmds_model(s)[i] == cmd_model(s[i]),
    decreases s.len(),
{
    if s.len() > 0 {
        lemma_cmds_model_index(s.drop_first());
        assert forall|i: int| 0 <= i < s.len() implies #[trigger] cmds_model(s)[i] == cmd_model(
            s[i],
        ) by {
            if i > 0 {
                assert(s.drop_first()[i - 1] == s[i]);
            }
        }
    }
}

/// What an assertion demands of its two evaluated sides.
pub open spec fn assert_model(op: BinOp, l: ValueModel, r: ValueModel) -> bool {
    match op {
        BinOp::Equal => l == r,
        BinOp::SubEqual => subeq_model(l, r),
        BinOp::NotEqual => l != r,
    }
}

/// Apply the assertion protocol; a mismatch is an assertion failure carrying
/// both evaluated values.
pub fn check_assert(op: &BinOp, l: Value, r: Value) -> (res: Result<(), Error>)
    ensures
        res is Ok <==> assert_model(*op, l@, r@),
        res matches Err(e) ==> e == Error::AssertionFailure(l, r),
{
    let holds = match op {
        BinOp::Equal => values_equal(&l, &r),
        BinOp::SubEqual => sub_equal(&l, &r),
        BinOp::NotEqual => !values_equal(&l, &r),
    };
    if holds {
        Ok(())
    } else {
        Err(Error::AssertionFailure(l, r))
    }
}

} // verus!
