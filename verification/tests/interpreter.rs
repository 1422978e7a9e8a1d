use icrepl::command::{BinOp, Command, Commands, Exp, IdentityConfig};
use icrepl::exec::{resume, step, Action, Event, Outcome, OutputItem, Session};
use icrepl::value::Value;
use icrepl::Error;

fn settle(s: &mut Session, mut o: Outcome) -> Outcome {
    let mut n = 0;
    while let Outcome::More = o {
        o = step(s);
        n += 1;
        assert!(n < 10_000, "machine did not settle");
    }
    o
}

fn run_cmd(s: &mut Session, c: Command) -> Outcome {
    let o = c.run(s);
    settle(s, o)
}

fn text(t: &[u8]) -> Exp {
    Exp::Const(Value::Text(t.to_vec()))
}

fn principal_of(s: &Session, name: &str) -> String {
    match s.env.get(&name.to_string()) {
        Some(Value::Principal(p)) => p.clone(),
        other => panic!("expected a principal binding, got {:?}", other),
    }
}

#[test]
fn identity_empty_resolves_same_principal_twice() {
    let mut s = Session::new(false, b"/".to_vec());
    let o = run_cmd(&mut s, Command::Identity("a".to_string(), IdentityConfig::Empty));
    assert!(matches!(o, Outcome::Done(Ok(()))));
    let p1 = principal_of(&s, "a");
    let o = run_cmd(&mut s, Command::Identity("a".to_string(), IdentityConfig::Empty));
    assert!(matches!(o, Outcome::Done(Ok(()))));
    let p2 = principal_of(&s, "a");
    assert_eq!(p1, p2);
}

#[test]
fn identity_cache_survives_switching() {
    let mut s = Session::new(false, b"/".to_vec());
    run_cmd(&mut s, Command::Identity("a".to_string(), IdentityConfig::Empty));
    let pa = principal_of(&s, "a");
    run_cmd(&mut s, Command::Identity("b".to_string(), IdentityConfig::Empty));
    let pb = principal_of(&s, "b");
    assert_ne!(pa, pb);
    run_cmd(&mut s, Command::Identity("a".to_string(), IdentityConfig::Empty));
    assert_eq!(principal_of(&s, "a"), pa);
    assert_eq!(s.current_identity, "a".to_string());
}

#[test]
fn identity_switch_announces_principal() {
    let mut s = Session::new(false, b"/".to_vec());
    run_cmd(&mut s, Command::Identity("a".to_string(), IdentityConfig::Empty));
    let p = principal_of(&s, "a");
    assert_eq!(s.output.last(), Some(&OutputItem::IdentityAnnounce(p)));
}

#[test]
fn failsafe_load_of_missing_file_is_noop() {
    let mut s = Session::new(false, b"/x".to_vec());
    let o = Command::Load(text(b"missing.txt?")).run(&mut s);
    match o {
        Outcome::Pending(a) => {
            assert_eq!(a, Action::ReadFile { path: b"/x/missing.txt".to_vec() })
        }
        other => panic!("expected a read request, got {:?}", other),
    }
    let o = resume(&mut s, Event::FileRead(Err("no such file".to_string())));
    let o = settle(&mut s, o);
    assert!(matches!(o, Outcome::Done(Ok(()))));
    assert_eq!(s.base_path, b"/x".to_vec());
}

#[test]
fn strict_load_of_missing_file_fails_and_restores_dir() {
    let mut s = Session::new(false, b"/x".to_vec());
    let o = Command::Load(text(b"missing.txt")).run(&mut s);
    assert!(matches!(o, Outcome::Pending(Action::ReadFile { .. })));
    let o = resume(&mut s, Event::FileRead(Err("no such file".to_string())));
    let o = settle(&mut s, o);
    match o {
        Outcome::Done(Err(Error::Io(p))) => assert_eq!(p, b"/x/missing.txt".to_vec()),
        other => panic!("expected an io error, got {:?}", other),
    }
    assert_eq!(s.base_path, b"/x".to_vec());
}

#[test]
fn load_target_must_be_text() {
    let mut s = Session::new(false, b"/x".to_vec());
    let o = run_cmd(&mut s, Command::Load(Exp::Const(Value::Nat(3))));
    assert!(matches!(o, Outcome::Done(Err(Error::Type(_)))));
}

#[test]
fn nested_load_resolves_against_loaded_dir_then_restores() {
    let mut s = Session::new(false, b"/x".to_vec());
    let o = Command::Load(text(b"sub/b.sh")).run(&mut s);
    match &o {
        Outcome::Pending(Action::ReadFile { path }) => {
            assert_eq!(path, &b"/x/sub/b.sh".to_vec())
        }
        other => panic!("expected a read request, got {:?}", other),
    }
    let o = resume(&mut s, Event::FileRead(Ok(b"load \"c.sh?\"".to_vec())));
    let o = match o {
        Outcome::Pending(Action::ParseScript { text: t, .. }) => {
            assert_eq!(t, b"load \"c.sh?\"".to_vec());
            let inner = Commands(vec![(Command::Load(text(b"c.sh?")), (0, 12))]);
            resume(&mut s, Event::Parsed(Ok(inner)))
        }
        other => panic!("expected a parse request, got {:?}", other),
    };
    let o = settle(&mut s, o);
    // the inner load resolves against the loaded script's directory
    match &o {
        Outcome::Pending(Action::ReadFile { path }) => {
            assert_eq!(path, &b"/x/sub/c.sh".to_vec())
        }
        other => panic!("expected a read request, got {:?}", other),
    }
    assert_eq!(s.base_path, b"/x/sub".to_vec());
    // the missing inner script is fail-safe: everything completes,
    // and the outer working directory comes back
    let o = resume(&mut s, Event::FileRead(Err("missing".to_string())));
    let o = settle(&mut s, o);
    assert!(matches!(o, Outcome::Done(Ok(()))));
    assert_eq!(s.base_path, b"/x".to_vec());
}

#[test]
fn failing_nested_load_still_restores_dir() {
    let mut s = Session::new(false, b"/x".to_vec());
    let o = Command::Load(text(b"sub/b.sh")).run(&mut s);
    assert!(matches!(o, Outcome::Pending(Action::ReadFile { .. })));
    let o = resume(&mut s, Event::FileRead(Ok(b"load \"c.sh\"".to_vec())));
    let o = match o {
        Outcome::Pending(Action::ParseScript { .. }) => {
            let inner = Commands(vec![(Command::Load(text(b"c.sh")), (0, 11))]);
            resume(&mut s, Event::Parsed(Ok(inner)))
        }
        other => panic!("expected a parse request, got {:?}", other),
    };
    let o = settle(&mut s, o);
    assert!(matches!(o, Outcome::Pending(Action::ReadFile { .. })));
    let o = resume(&mut s, Event::FileRead(Err("missing".to_string())));
    let o = settle(&mut s, o);
    assert!(matches!(o, Outcome::Done(Err(Error::Io(_)))));
    assert_eq!(s.base_path, b"/x".to_vec());
}

#[test]
fn load_strips_shebang_line() {
    let mut s = Session::new(false, b"/x".to_vec());
    let o = Command::Load(text(b"a.sh")).run(&mut s);
    assert!(matches!(o, Outcome::Pending(Action::ReadFile { .. })));
    let o = resume(
        &mut s,
        Event::FileRead(Ok(b"#!/usr/bin/env repl\nshow 1".to_vec())),
    );
    match o {
        Outcome::Pending(Action::ParseScript { text: t, .. }) => {
            assert_eq!(t, b"\nshow 1".to_vec())
        }
        other => panic!("expected a parse request, got {:?}", other),
    }
}

#[test]
fn parse_failure_is_fatal_and_restores_dir() {
    let mut s = Session::new(false, b"/x".to_vec());
    let o = Command::Load(text(b"a.sh")).run(&mut s);
    assert!(matches!(o, Outcome::Pending(Action::ReadFile { .. })));
    let o = resume(&mut s, Event::FileRead(Ok(b"not a script".to_vec())));
    assert!(matches!(o, Outcome::Pending(Action::ParseScript { .. })));
    let o = resume(&mut s, Event::Parsed(Err("syntax error".to_string())));
    let o = settle(&mut s, o);
    assert!(matches!(o, Outcome::Done(Err(Error::Parse(_)))));
    assert_eq!(s.base_path, b"/x".to_vec());
}

#[test]
fn subequal_passes_on_substring() {
    let mut s = Session::new(false, b"/".to_vec());
    let o = run_cmd(
        &mut s,
        Command::Assert(BinOp::SubEqual, text(b"hello world"), text(b"hello")),
    );
    assert!(matches!(o, Outcome::Done(Ok(()))));
}

#[test]
fn subequal_fails_when_not_substring() {
    let mut s = Session::new(false, b"/".to_vec());
    let o = run_cmd(
        &mut s,
        Command::Assert(BinOp::SubEqual, text(b"hello"), text(b"world")),
    );
    assert!(matches!(
        o,
        Outcome::Done(Err(Error::AssertionFailure(_, _)))
    ));
}

#[test]
fn subequal_accepts_empty_substring() {
    let mut s = Session::new(false, b"/".to_vec());
    let o = run_cmd(&mut s, Command::Assert(BinOp::SubEqual, text(b"abc"), text(b"")));
    assert!(matches!(o, Outcome::Done(Ok(()))));
}

#[test]
fn subequal_coerces_int_and_nat() {
    let mut s = Session::new(false, b"/".to_vec());
    let o = run_cmd(
        &mut s,
        Command::Assert(
            BinOp::SubEqual,
            Exp::Const(Value::Int(5)),
            Exp::Const(Value::Nat(5)),
        ),
    );
    assert!(matches!(o, Outcome::Done(Ok(()))));
}

#[test]
fn subequal_distinguishes_different_numbers() {
    let mut s = Session::new(false, b"/".to_vec());
    let o = run_cmd(
        &mut s,
        Command::Assert(
            BinOp::SubEqual,
            Exp::Const(Value::Int(5)),
            Exp::Const(Value::Nat(6)),
        ),
    );
    assert!(matches!(
        o,
        Outcome::Done(Err(Error::AssertionFailure(_, _)))
    ));
}

#[test]
fn assert_equal_and_not_equal() {
    let mut s = Session::new(false, b"/".to_vec());
    let o = run_cmd(
        &mut s,
        Command::Assert(
            BinOp::Equal,
            Exp::Const(Value::Nat(1)),
            Exp::Const(Value::Nat(1)),
        ),
    );
    assert!(matches!(o, Outcome::Done(Ok(()))));
    let o = run_cmd(
        &mut s,
        Command::Assert(
            BinOp::NotEqual,
            Exp::Const(Value::Nat(1)),
            Exp::Const(Value::Nat(1)),
        ),
    );
    assert!(matches!(
        o,
        Outcome::Done(Err(Error::AssertionFailure(_, _)))
    ));
    let o = run_cmd(
        &mut s,
        Command::Assert(
            BinOp::Equal,
            Exp::Const(Value::Text(b"a".to_vec())),
            Exp::Const(Value::Nat(1)),
        ),
    );
    assert!(matches!(
        o,
        Outcome::Done(Err(Error::AssertionFailure(_, _)))
    ));
}

#[test]
fn while_with_numeric_condition_fails_immediately() {
    let mut s = Session::new(false, b"/".to_vec());
    let o = run_cmd(
        &mut s,
        Command::While {
            cond: Exp::Const(Value::Nat(1)),
            body: vec![Command::Let("ran".to_string(), Exp::Const(Value::Nat(1)))],
        },
    );
    assert!(matches!(o, Outcome::Done(Err(Error::Type(_)))));
    assert!(s.env.get(&"ran".to_string()).is_none());
}

#[test]
fn while_loops_until_condition_turns_false() {
    let mut s = Session::new(false, b"/".to_vec());
    run_cmd(&mut s, Command::Let("f".to_string(), Exp::Const(Value::Bool(true))));
    let o = run_cmd(
        &mut s,
        Command::While {
            cond: Exp::Var("f".to_string()),
            body: vec![
                Command::Let("f".to_string(), Exp::Const(Value::Bool(false))),
                Command::Let("ran".to_string(), Exp::Const(Value::Nat(7))),
            ],
        },
    );
    assert!(matches!(o, Outcome::Done(Ok(()))));
    assert_eq!(s.env.get(&"ran".to_string()), Some(&Value::Nat(7)));
    assert_eq!(s.env.get(&"f".to_string()), Some(&Value::Bool(false)));
}

#[test]
fn if_picks_one_branch_and_rejects_non_boolean() {
    let mut s = Session::new(false, b"/".to_vec());
    let o = run_cmd(
        &mut s,
        Command::If {
            cond: Exp::Const(Value::Bool(true)),
            then: vec![Command::Let("x".to_string(), Exp::Const(Value::Nat(1)))],
            else_: vec![Command::Let("x".to_string(), Exp::Const(Value::Nat(2)))],
        },
    );
    assert!(matches!(o, Outcome::Done(Ok(()))));
    assert_eq!(s.env.get(&"x".to_string()), Some(&Value::Nat(1)));
    let o = run_cmd(
        &mut s,
        Command::If {
            cond: Exp::Const(Value::Text(b"yes".to_vec())),
            then: vec![],
            else_: vec![],
        },
    );
    assert!(matches!(o, Outcome::Done(Err(Error::Type(_)))));
}

#[test]
fn show_text_prints_raw_and_binds_underscore() {
    let mut s = Session::new(false, b"/".to_vec());
    let o = run_cmd(&mut s, Command::Show(text(b"abc")));
    assert!(matches!(o, Outcome::Done(Ok(()))));
    assert_eq!(s.output, vec![OutputItem::Value("abc".to_string())]);
    assert_eq!(
        s.env.get(&"_".to_string()),
        Some(&Value::Text(b"abc".to_vec()))
    );
}

#[test]
fn show_non_text_prints_nothing_when_quiet() {
    let mut s = Session::new(false, b"/".to_vec());
    let o = run_cmd(&mut s, Command::Show(Exp::Const(Value::Nat(3))));
    assert!(matches!(o, Outcome::Done(Ok(()))));
    assert!(s.output.is_empty());
    assert_eq!(s.env.get(&"_".to_string()), Some(&Value::Nat(3)));
}

#[test]
fn show_verbose_renders_value_and_appends_timing() {
    let mut s = Session::new(true, b"/".to_vec());
    let o = run_cmd(&mut s, Command::Show(text(b"abc")));
    assert!(matches!(o, Outcome::Done(Ok(()))));
    assert_eq!(s.output.len(), 2);
    assert!(matches!(&s.output[0], OutputItem::Value(v) if v.contains("abc")));
    assert!(matches!(&s.output[1], OutputItem::Timing(_)));
}

#[test]
fn func_redefinition_keeps_only_second_definition() {
    let mut s = Session::new(false, b"/".to_vec());
    run_cmd(
        &mut s,
        Command::Func {
            name: "foo".to_string(),
            args: vec!["x".to_string()],
            body: vec![Command::Let("r".to_string(), Exp::Const(Value::Nat(1)))],
        },
    );
    run_cmd(
        &mut s,
        Command::Func {
            name: "foo".to_string(),
            args: vec!["y".to_string(), "z".to_string()],
            body: vec![Command::Let("r".to_string(), Exp::Const(Value::Nat(2)))],
        },
    );
    let def = s.funcs.get(&"foo".to_string()).expect("foo must be defined");
    assert_eq!(def.args, vec!["y".to_string(), "z".to_string()]);
    assert_eq!(def.body.len(), 1);
    match &def.body[0] {
        Command::Let(n, Exp::Const(Value::Nat(v))) => {
            assert_eq!(n, "r");
            assert_eq!(*v, 2);
        }
        other => panic!("unexpected body {:?}", other),
    }
}

#[test]
fn let_binds_and_last_write_wins() {
    let mut s = Session::new(false, b"/".to_vec());
    run_cmd(&mut s, Command::Let("x".to_string(), Exp::Const(Value::Nat(1))));
    run_cmd(&mut s, Command::Let("x".to_string(), Exp::Const(Value::Nat(2))));
    assert_eq!(s.env.get(&"x".to_string()), Some(&Value::Nat(2)));
    assert!(s.output.is_empty());
}

#[test]
fn let_of_unknown_variable_fails() {
    let mut s = Session::new(false, b"/".to_vec());
    let o = run_cmd(&mut s, Command::Let("x".to_string(), Exp::Var("nope".to_string())));
    assert!(matches!(o, Outcome::Done(Err(Error::Eval(_)))));
}

#[test]
fn call_result_binds_value_and_cost() {
    let mut s = Session::new(false, b"/".to_vec());
    let o = Command::Let("y".to_string(), Exp::Call(b"call ic.method".to_vec())).run(&mut s);
    match &o {
        Outcome::Pending(Action::CanisterCall { call }) => {
            assert_eq!(call, &b"call ic.method".to_vec())
        }
        other => panic!("expected a call request, got {:?}", other),
    }
    let o = resume(
        &mut s,
        Event::CallResult(Ok((Value::Nat(7), Some(42)))),
    );
    let o = settle(&mut s, o);
    assert!(matches!(o, Outcome::Done(Ok(()))));
    assert_eq!(s.env.get(&"y".to_string()), Some(&Value::Nat(7)));
    assert_eq!(
        s.env.get(&"__cost_y".to_string()),
        Some(&Value::Int64(42))
    );
}

#[test]
fn failed_call_is_an_eval_error() {
    let mut s = Session::new(false, b"/".to_vec());
    let o = Command::Let("y".to_string(), Exp::Call(b"call ic.method".to_vec())).run(&mut s);
    assert!(matches!(o, Outcome::Pending(Action::CanisterCall { .. })));
    let o = resume(&mut s, Event::CallResult(Err("unreachable".to_string())));
    let o = settle(&mut s, o);
    assert!(matches!(o, Outcome::Done(Err(Error::Eval(_)))));
}

#[test]
fn config_inline_parses_and_is_stored() {
    let mut s = Session::new(false, b"/".to_vec());
    let o = run_cmd(&mut s, Command::Config(b"a = 1".to_vec()));
    assert!(matches!(o, Outcome::Done(Ok(()))));
    assert!(s.config.is_some());
}

#[test]
fn config_inline_rejects_malformed_text() {
    let mut s = Session::new(false, b"/".to_vec());
    let o = run_cmd(&mut s, Command::Config(b"= = =".to_vec()));
    assert!(matches!(o, Outcome::Done(Err(Error::Config(_)))));
}

#[test]
fn config_toml_path_reads_the_file() {
    let mut s = Session::new(false, b"/x".to_vec());
    let o = Command::Config(b"conf.toml".to_vec()).run(&mut s);
    match &o {
        Outcome::Pending(Action::ReadFile { path }) => {
            assert_eq!(path, &b"/x/conf.toml".to_vec())
        }
        other => panic!("expected a read request, got {:?}", other),
    }
    let o = resume(&mut s, Event::FileRead(Ok(b"a = 2".to_vec())));
    let o = settle(&mut s, o);
    assert!(matches!(o, Outcome::Done(Ok(()))));
    assert!(s.config.is_some());
}

#[test]
fn import_binds_name_to_principal() {
    let mut s = Session::new(false, b"/".to_vec());
    let o = run_cmd(
        &mut s,
        Command::Import("ic0".to_string(), "aaaaa-aa".to_string(), None),
    );
    assert!(matches!(o, Outcome::Done(Ok(()))));
    assert_eq!(
        s.env.get(&"ic0".to_string()),
        Some(&Value::Principal("aaaaa-aa".to_string()))
    );
}

#[test]
fn import_with_interface_registers_metadata() {
    let mut s = Session::new(false, b"/x".to_vec());
    let o = Command::Import(
        "ic0".to_string(),
        "aaaaa-aa".to_string(),
        Some(b"ic.did".to_vec()),
    )
    .run(&mut s);
    match &o {
        Outcome::Pending(Action::ResolveInterface { path }) => {
            assert_eq!(path, &b"/x/ic.did".to_vec())
        }
        other => panic!("expected an interface request, got {:?}", other),
    }
    let o = resume(
        &mut s,
        Event::InterfaceResolved(Ok(b"service : {}".to_vec())),
    );
    let o = settle(&mut s, o);
    assert!(matches!(o, Outcome::Done(Ok(()))));
    assert_eq!(
        s.canisters.get(&"aaaaa-aa".to_string()),
        Some(&b"service : {}".to_vec())
    );
    assert_eq!(
        s.env.get(&"ic0".to_string()),
        Some(&Value::Principal("aaaaa-aa".to_string()))
    );
}

#[test]
fn pem_identity_with_bad_key_material_fails() {
    let mut s = Session::new(false, b"/x".to_vec());
    let o = Command::Identity("p".to_string(), IdentityConfig::Pem(b"k.pem".to_vec()))
        .run(&mut s);
    match &o {
        Outcome::Pending(Action::ReadFile { path }) => assert_eq!(path, &b"/x/k.pem".to_vec()),
        other => panic!("expected a read request, got {:?}", other),
    }
    let o = resume(&mut s, Event::FileRead(Ok(b"not a pem".to_vec())));
    let o = settle(&mut s, o);
    assert!(matches!(o, Outcome::Done(Err(Error::Identity(_)))));
}

#[test]
fn pem_identity_with_unreadable_file_fails() {
    let mut s = Session::new(false, b"/x".to_vec());
    let o = Command::Identity("p".to_string(), IdentityConfig::Pem(b"k.pem".to_vec()))
        .run(&mut s);
    assert!(matches!(o, Outcome::Pending(Action::ReadFile { .. })));
    let o = resume(&mut s, Event::FileRead(Err("denied".to_string())));
    let o = settle(&mut s, o);
    assert!(matches!(o, Outcome::Done(Err(Error::Identity(_)))));
}

#[test]
fn hsm_identity_requests_hardware_construction() {
    let mut s = Session::new(false, b"/".to_vec());
    let o = Command::Identity(
        "h".to_string(),
        IdentityConfig::Hsm {
            slot_index: 3,
            key_id: "01".to_string(),
        },
    )
    .run(&mut s);
    match o {
        Outcome::Pending(Action::MakeHsmIdentity { slot_index, key_id }) => {
            assert_eq!(slot_index, 3);
            assert_eq!(key_id, "01".to_string());
        }
        other => panic!("expected a hardware request, got {:?}", other),
    }
    let o = resume(&mut s, Event::HsmMade(Err("no module".to_string())));
    let o = settle(&mut s, o);
    assert!(matches!(o, Outcome::Done(Err(Error::Identity(_)))));
}

#[test]
fn verbose_load_echoes_source_slices() {
    let mut s = Session::new(true, b"/x".to_vec());
    let o = Command::Load(text(b"a.sh")).run(&mut s);
    assert!(matches!(o, Outcome::Pending(Action::ReadFile { .. })));
    let o = resume(&mut s, Event::FileRead(Ok(b"show 1".to_vec())));
    let o = match o {
        Outcome::Pending(Action::ParseScript { .. }) => {
            let inner = Commands(vec![(
                Command::Let("q".to_string(), Exp::Const(Value::Nat(1))),
                (0, 6),
            )]);
            resume(&mut s, Event::Parsed(Ok(inner)))
        }
        other => panic!("expected a parse request, got {:?}", other),
    };
    let o = settle(&mut s, o);
    assert!(matches!(o, Outcome::Done(Ok(()))));
    assert!(s
        .output
        .iter()
        .any(|i| matches!(i, OutputItem::Echo(t) if t == "show 1")));
}

#[test]
fn path_resolution_model() {
    assert_eq!(
        icrepl::paths::resolve_path(&b"/x".to_vec(), &b"a.sh".to_vec()),
        b"/x/a.sh".to_vec()
    );
    assert_eq!(
        icrepl::paths::resolve_path(&b"/x".to_vec(), &b"/abs/a.sh".to_vec()),
        b"/abs/a.sh".to_vec()
    );
    assert_eq!(
        icrepl::paths::resolve_path(&b"".to_vec(), &b"a.sh".to_vec()),
        b"a.sh".to_vec()
    );
    assert_eq!(
        icrepl::paths::parent_dir(&b"/x/sub/a.sh".to_vec()),
        b"/x/sub".to_vec()
    );
    assert_eq!(icrepl::paths::parent_dir(&b"a.sh".to_vec()), b"".to_vec());
}

#[test]
fn call_expressions_are_recognized() {
    assert!(Exp::Call(b"call x.f".to_vec()).is_call());
    assert!(!Exp::Const(Value::Nat(1)).is_call());
    assert!(!Exp::Var("x".to_string()).is_call());
}
