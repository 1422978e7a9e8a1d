//! The command executor: a suspending interpreter over a mutable session.
//!
//! `Command::run` consumes one top-level command. Work that only the outside
//! world can do — reading a script file, parsing script text, a remote
//! canister call, constructing a hardware identity, resolving interface
//! metadata — is handed back as an [`Action`]; the caller performs it and
//! resumes the machine with the matching [`Event`]. Control flow, binding,
//! the assertion protocol, identity caching and the working-directory
//! save/restore discipline around script inclusion are all verified here.
//!
//! The central law is about the working directory: `outer_dir` names the
//! directory the machine owes its caller — the saved directory of the oldest
//! pending restore frame, or the current directory when none is pending —
//! and every transition preserves it, so whenever a run finishes, on success
//! or on failure, the working directory is exactly what it was at the start.

use vstd::prelude::*;
use vstd::string::StringExecFns;
use std::sync::Arc;
use crate::dict::Dict;
use crate::value::{Value, ValueModel, dup_value, dup_bytes, value_text, bytes_text, rendered_of,
    lossy_of};
use crate::command::{Command, Commands, IdentityConfig, BinOp, Exp, check_assert, assert_model,
    cmds_model};
use crate::paths::{resolve_path, parent_dir, parent_of, take_prefix, bytes_from, path_join,
    ends_with_spec};
use crate::ident::{Signer, signer_sender, fresh_signing_key, basic_from_key, secp_from_pem,
    basic_from_pem};
use crate::Error;

verus! {

#[verifier::external_type_specification]
#[verifier::external_body]
pub struct ExInstant(std::time::Instant);

#[verifier::external_type_specification]
#[verifier::external_body]
pub struct ExConfigs(candid_parser::configs::Configs);

pub uninterp spec fn toml_ok(text: Seq<u8>) -> bool;

/// Relies on candid_parser's `Configs` parser: whether configuration text is
/// well formed is a function of the text alone.
#[verifier::external_body]
fn parse_configs(text: &Vec<u8>) -> (r: Result<candid_parser::configs::Configs, String>)
    ensures
        r is Ok <==> toml_ok(text@),
{
    match String::from_utf8_lossy(text).into_owned().parse::<candid_parser::configs::Configs>() {
        Ok(c) => Ok(c),
        Err(e) => Err(format!("{e}")),
    }
}

/// Relies on shellexpand's `env`: environment-variable substitution over
/// script text. The outcome depends on the process environment, so nothing
/// is promised beyond that text or an error comes back.
#[verifier::external_body]
fn expand_env(text: &Vec<u8>) -> Result<Vec<u8>, String> {
    match shellexpand::env(&String::from_utf8_lossy(text).into_owned()) {
        Ok(out) => Ok(out.into_owned().into_bytes()),
        Err(e) => Err(format!("{e}")),
    }
}

/// Relies on std's `Instant::now`: an opaque reading of the monotonic clock.
#[verifier::external_body]
fn time_now() -> std::time::Instant {
    std::time::Instant::now()
}

/// Relies on std's `Instant::elapsed`, rendered in `Duration`'s debug form:
/// the wall time since the reading was taken.
#[verifier::external_body]
fn elapsed_text(start: &std::time::Instant) -> String {
    format!("({:.2?})", start.elapsed())
}

/// One line of terminal output, kept structured so the host decides layout.
#[derive(Debug, PartialEq)]
pub enum OutputItem {
    /// A displayed value (from `Show`, or a bound textual value).
    Value(String),
    /// A timing annotation, right-aligned by the host in verbose mode.
    Timing(String),
    /// The principal announced on an identity switch.
    IdentityAnnounce(String),
    /// A loaded command's source slice, echoed in verbose mode.
    Echo(String),
}

/// A stored function definition: parameter names and body.
#[derive(Debug)]
pub struct FuncDef {
    pub args: Vec<String>,
    pub body: Vec<Command>,
}

/// A cached identity: the shared signer handle and the principal it
/// authenticates as.
pub struct IdentityEntry {
    pub signer: Signer,
    pub principal: String,
}

/// What the machine asks its caller to do.
#[derive(Debug, PartialEq)]
pub enum Action {
    ReadFile { path: Vec<u8> },
    ParseScript { path: Vec<u8>, text: Vec<u8> },
    CanisterCall { call: Vec<u8> },
    MakeHsmIdentity { slot_index: usize, key_id: String },
    ResolveInterface { path: Vec<u8> },
}

/// The caller's answer to the pending [`Action`].
pub enum Event {
    FileRead(Result<Vec<u8>, String>),
    Parsed(Result<Commands, String>),
    CallResult(Result<(Value, Option<i64>), String>),
    HsmMade(Result<ic_identity_hsm::HardwareIdentity, String>),
    InterfaceResolved(Result<Vec<u8>, String>),
}

/// Result of `run` or `resume`: finished, or suspended on an [`Action`].
#[derive(Debug, PartialEq)]
pub enum Outcome {
    /// The command ran to completion, or failed.
    Done(Result<(), Error>),
    /// The machine needs the caller to perform this action and `resume`.
    Pending(Action),
    /// Queued frames remain: call `step` to continue.
    More,
}

/// What a suspended evaluation does with the value it is waiting for.
pub enum Cont {
    LetC { name: String },
    ShowC { start: std::time::Instant },
    AssertLeftC { op: BinOp, right: Exp },
    AssertRightC { op: BinOp, left: Value },
    IfC { then: Vec<Command>, else_: Vec<Command> },
    WhileC { cond: Exp, body: Vec<Command> },
    LoadC,
}

/// Why a file read is awaited.
pub enum FilePurpose {
    LoadScript { fail_safe: bool },
    ConfigFile,
    PemFile { name: String },
}

/// The machine's suspension state.
pub enum Pending {
    Idle,
    AwaitCall { cont: Cont },
    AwaitFile { purpose: FilePurpose, path: Vec<u8> },
    AwaitParse { dir: Vec<u8>, script: Vec<u8> },
    AwaitHsm { name: String },
    AwaitInterface { name: String, principal: String },
}

/// One level of the execution stack.
pub enum Frame {
    /// Remaining commands of a plain block (an `If` branch, a `While` body).
    Block { cmds: Vec<Command> },
    /// Remaining commands of a loaded script, with the script text for the
    /// verbose source echo.
    Loaded { cmds: Vec<(Command, (usize, usize))>, script: Vec<u8> },
    /// Re-evaluate the loop condition when this frame surfaces.
    WhileCheck { cond: Exp, body: Vec<Command> },
    /// Restore the saved working directory when this frame surfaces, whether
    /// the block above it succeeded or failed.
    RestoreDir { saved: Vec<u8> },
}

/// The session threaded through every command.
pub struct Session {
    pub env: Dict<Value>,
    pub funcs: Dict<FuncDef>,
    pub identities: Dict<IdentityEntry>,
    pub canisters: Dict<Vec<u8>>,
    pub config: Option<candid_parser::configs::Configs>,
    pub base_path: Vec<u8>,
    pub verbose: bool,
    pub current_identity: String,
    pub active_signer: Option<Signer>,
    pub output: Vec<OutputItem>,
    pub stack: Vec<Frame>,
    pub pending: Pending,
}

/// The directory owed to the caller: the saved directory of the oldest
/// pending restore frame, or the current one when none is pending.
pub open spec fn outer_dir_of(st: Seq<Frame>, cur: Seq<u8>) -> Seq<u8>
    decreases st.len(),
{
    if st.len() == 0 {
        cur
    } else {
        match st[0] {
            Frame::RestoreDir { saved } => saved@,
            _ => outer_dir_of(st.drop_first(), cur),
        }
    }
}

pub open spec fn outer_dir(s: Session) -> Seq<u8> {
    outer_dir_of(s.stack@, s.base_path@)
}

/// Invariants every machine transition preserves: the directory owed to the
/// caller never changes, the identity cache only grows (an entry is never
/// evicted), and the verbosity setting is stable.
pub open spec fn session_evolves(pre: Session, post: Session) -> bool {
    &&& outer_dir(post) == outer_dir(pre)
    &&& pre.identities@.dom() <= post.identities@.dom()
    &&& post.verbose == pre.verbose
}

/// The machine is at rest: nothing stacked, nothing awaited.
pub open spec fn machine_done(s: Session) -> bool {
    s.stack@.len() == 0 && s.pending is Idle
}

proof fn lemma_outer_snoc(st: Seq<Frame>, f: Frame, cur: Seq<u8>)
    ensures
        outer_dir_of(st.push(f), cur) == outer_dir_of(
            st,
            match f {
                Frame::RestoreDir { saved } => saved@,
                _ => cur,
            },
        ),
    decreases st.len(),
{
    if st.len() == 0 {
        assert(st.push(f)[0] == f);
        assert(st.push(f).drop_first() =~= Seq::<Frame>::empty());
        match f {
            Frame::RestoreDir { saved } => {
                assert(outer_dir_of(st.push(f), cur) == saved@);
            },
            _ => {
                assert(outer_dir_of(st.push(f), cur) == outer_dir_of(
                    st.push(f).drop_first(),
                    cur,
                ));
            },
        }
    } else {
        assert(st.push(f)[0] == st[0]);
        assert(st.push(f).drop_first() =~= st.drop_first().push(f));
        lemma_outer_snoc(st.drop_first(), f, cur);
        match st[0] {
            Frame::RestoreDir { saved } => {
                assert(outer_dir_of(st.push(f), cur) == saved@);
            },
            _ => {
                assert(outer_dir_of(st.push(f), cur) == outer_dir_of(
                    st.drop_first().push(f),
                    cur,
                ));
            },
        }
    }
}

/// Law: the identity cache only ever grows, so resolving one name never
/// evicts or disturbs another. After resolving `a` and then switching to a
/// different identity `b`, `a`'s cached entry — its principal included — is
/// exactly what the first resolution stored.
pub proof fn lemma_identity_cache_retained(a: Seq<char>, b: Seq<char>, s1: Session, s2: Session)
    requires
        a != b,
        identity_installed(b, s1.env@, s1.identities@, s1.output@, s2),
        s1.identities@.contains_key(a),
    ensures
        s2.identities@.contains_key(a),
        s2.identities@[a] == s1.identities@[a],
{
}

/// The derived name under which a call's cost metric is bound.
pub open spec fn cost_name(id: Seq<char>) -> Seq<char> {
    "__cost_"@ + id
}

/// `post` is `pre` with `name` bound to a value whose image is `v`; nothing
/// else moved.
pub open spec fn env_bound(
    pre: Map<Seq<char>, Value>,
    post: Map<Seq<char>, Value>,
    name: Seq<char>,
    v: ValueModel,
) -> bool {
    &&& post.dom() == pre.dom().insert(name)
    &&& post.contains_key(name) && post[name]@ == v
    &&& forall|k: Seq<char>|
        pre.dom().contains(k) && k != name ==> #[trigger] post[k] == pre[k]
}

/// The binding policy's effect on the variable store: the value under
/// `name`, and, when a call result carried a cost metric, that metric under
/// the derived cost name.
pub open spec fn env_cost_bound(
    pre: Map<Seq<char>, Value>,
    post: Map<Seq<char>, Value>,
    name: Seq<char>,
    v: ValueModel,
    cost: Option<i64>,
) -> bool {
    match cost {
        Option::Some(c) => {
            &&& post.dom() == pre.dom().insert(cost_name(name)).insert(name)
            &&& post.contains_key(name) && post[name]@ == v
            &&& name != cost_name(name) ==> post.contains_key(cost_name(name))
                && post[cost_name(name)]@ == ValueModel::Int64(c)
            &&& forall|k: Seq<char>|
                pre.dom().contains(k) && k != name && k != cost_name(name)
                    ==> #[trigger] post[k] == pre[k]
        },
        Option::None => env_bound(pre, post, name, v),
    }
}

/// The binding policy's display rule: in verbose mode the full rendering of
/// the value; otherwise a textual value prints as its raw text; anything
/// else prints nothing.
pub open spec fn display_output(
    pre: Seq<OutputItem>,
    post: Seq<OutputItem>,
    v: ValueModel,
    display: bool,
    verbose: bool,
) -> bool {
    if display && verbose {
        &&& post.len() == pre.len() + 1
        &&& post.subrange(0, pre.len() as int) == pre
        &&& post.last() matches OutputItem::Value(t) && t@ == rendered_of(v)
    } else if display && v is Text {
        &&& post.len() == pre.len() + 1
        &&& post.subrange(0, pre.len() as int) == pre
        &&& post.last() matches OutputItem::Value(t) && t@ == lossy_of(v->Text_0)
    } else {
        post == pre
    }
}

/// The single choke point that writes a value into a variable: display per
/// the policy above, bind an attached cost metric under the derived name,
/// then bind the value itself (overwrite).
pub fn bind_value(s: &mut Session, id: String, v: Value, cost: Option<i64>, display: bool)
    ensures
        env_cost_bound(old(s).env@, final(s).env@, id@, v@, cost),
        display_output(old(s).output@, final(s).output@, v@, display, old(s).verbose),
        final(s).funcs == old(s).funcs,
        final(s).identities == old(s).identities,
        final(s).canisters == old(s).canisters,
        final(s).config == old(s).config,
        final(s).current_identity == old(s).current_identity,
        final(s).active_signer == old(s).active_signer,
        final(s).base_path == old(s).base_path,
        final(s).verbose == old(s).verbose,
        final(s).stack == old(s).stack,
        final(s).pending == old(s).pending,
{
    let ghost out0 = s.output@;
    if display {
        if s.verbose {
            let t = value_text(&v);
            s.output.push(OutputItem::Value(t));
            proof {
                assert(s.output@.subrange(0, out0.len() as int) =~= out0);
            }
        } else {
            match &v {
                Value::Text(tb) => {
                    let t = bytes_text(tb);
                    s.output.push(OutputItem::Value(t));
                    proof {
                        assert(s.output@.subrange(0, out0.len() as int) =~= out0);
                    }
                },
                _ => {},
            }
        }
    }
    proof {
        assert(display_output(out0, s.output@, v@, display, s.verbose));
    }
    match cost {
        Option::Some(c) => {
            let cost_id = "__cost_".to_owned().concat(id.as_str());
            s.env.insert(cost_id, Value::Int64(c));
            s.env.insert(id, v);
        },
        Option::None => {
            s.env.insert(id, v);
        },
    }
}

/// Spec-level expression evaluation over the variable store.
pub enum EvalModel {
    Val(ValueModel),
    Missing(Seq<char>),
    Remote(Seq<u8>),
}

pub open spec fn eval_model(e: Exp, env: Map<Seq<char>, Value>) -> EvalModel {
    match e {
        Exp::Const(v) => EvalModel::Val(v@),
        Exp::Var(x) => if env.contains_key(x@) {
            EvalModel::Val(env[x@]@)
        } else {
            EvalModel::Missing(x@)
        },
        Exp::Call(d) => EvalModel::Remote(d@),
    }
}

pub enum EvalR {
    Val(Value),
    Remote(Vec<u8>),
    Fail(Error),
}

/// Evaluate an expression as far as the session alone can: a literal or a
/// variable yields its value; a remote call is the environment's to perform.
pub fn eval_exp(e: &Exp, s: &Session) -> (r: EvalR)
    ensures
        (eval_model(*e, s.env@) matches EvalModel::Val(m) ==> r matches EvalR::Val(v) && v@ == m),
        (eval_model(*e, s.env@) matches EvalModel::Missing(x) ==> r matches EvalR::Fail(err)
            && err is Eval),
        (eval_model(*e, s.env@) matches EvalModel::Remote(d) ==> r matches EvalR::Remote(d2)
            && d2@ == d),
{
    match e {
        Exp::Const(v) => EvalR::Val(dup_value(v)),
        Exp::Var(x) => match s.env.get(x) {
            Option::Some(v) => EvalR::Val(dup_value(v)),
            Option::None => EvalR::Fail(
                Error::Eval("Unknown variable ".to_owned().concat(x.as_str())),
            ),
        },
        Exp::Call(d) => EvalR::Remote(dup_bytes(d)),
    }
}

/// How executing one command's synchronous part ended.
pub enum Flow {
    Go,
    Suspend(Action),
    Fail(Error),
}

/// A trailing `?` on a load target marks fail-safe mode.
pub open spec fn is_failsafe(t: Seq<u8>) -> bool {
    t.len() > 0 && t.last() == 63u8
}

/// The load target with a fail-safe marker stripped.
pub open spec fn strip_q(t: Seq<u8>) -> Seq<u8> {
    if is_failsafe(t) {
        t.drop_last()
    } else {
        t
    }
}

pub open spec fn toml_suffix() -> Seq<u8> {
    seq![46u8, 116u8, 111u8, 109u8, 108u8]
}

/// The `Show` command's output: the displayed value, and in verbose mode a
/// trailing timing annotation.
pub open spec fn show_output(
    pre: Seq<OutputItem>,
    post: Seq<OutputItem>,
    v: ValueModel,
    verbose: bool,
) -> bool {
    if verbose {
        &&& post.len() == pre.len() + 2
        &&& post.subrange(0, pre.len() as int) == pre
        &&& post[pre.len() as int] matches OutputItem::Value(t) && t@ == rendered_of(v)
        &&& post.last() is Timing
    } else {
        display_output(pre, post, v, true, false)
    }
}

/// After resolving identity `name` against a session whose variable store,
/// identity cache and output were `env0`, `ids0` and `out0`: the cache holds
/// it (nothing else moved), the variable store binds `name` to its
/// principal, it is the current identity and the active signer, and the
/// switch was announced.
pub open spec fn identity_installed(
    name: Seq<char>,
    env0: Map<Seq<char>, Value>,
    ids0: Map<Seq<char>, IdentityEntry>,
    out0: Seq<OutputItem>,
    post: Session,
) -> bool {
    &&& post.identities@.contains_key(name)
    &&& post.identities@ == ids0.insert(name, post.identities@[name])
    &&& env_bound(env0, post.env@, name, ValueModel::Principal(
        post.identities@[name].principal@,
    ))
    &&& post.current_identity@ == name
    &&& post.active_signer is Some
    &&& post.output@.len() == out0.len() + 1
    &&& post.output@.subrange(0, out0.len() as int) == out0
    &&& post.output@.last() matches OutputItem::IdentityAnnounce(t) && t@
        == post.identities@[name].principal@
}

/// Announce, cache, activate and bind a resolved identity whose principal is
/// already known.
fn install_identity(s: &mut Session, name: String, signer: Signer, principal: String)
    ensures
        identity_installed(name@, old(s).env@, old(s).identities@, old(s).output@, *final(s)),
        final(s).identities@[name@].principal@ == principal@,
        final(s).stack == old(s).stack,
        final(s).base_path == old(s).base_path,
        final(s).funcs == old(s).funcs,
        final(s).canisters == old(s).canisters,
        final(s).config == old(s).config,
        final(s).pending == old(s).pending,
        final(s).verbose == old(s).verbose,
{
    let ghost out0 = s.output@;
    s.output.push(OutputItem::IdentityAnnounce(principal.clone()));
    proof {
        assert(s.output@.subrange(0, out0.len() as int) =~= out0);
    }
    s.active_signer = Some(signer.clone());
    s.current_identity = name.clone();
    s.identities.insert(name.clone(), IdentityEntry { signer, principal: principal.clone() });
    s.env.insert(name, Value::Principal(principal));
}

/// Derive the principal of a freshly constructed signer (which never fails),
/// then install it.
fn finish_new_identity(s: &mut Session, name: String, signer: Signer) -> (r: Flow)
    ensures
        r is Go,
        identity_installed(name@, old(s).env@, old(s).identities@, old(s).output@, *final(s)),
        final(s).stack == old(s).stack,
        final(s).base_path == old(s).base_path,
        final(s).funcs == old(s).funcs,
        final(s).canisters == old(s).canisters,
        final(s).config == old(s).config,
        final(s).pending == old(s).pending,
        final(s).verbose == old(s).verbose,
        old(s).identities@.dom() <= final(s).identities@.dom(),
{
    match signer_sender(&signer) {
        Ok(principal) => {
            install_identity(s, name, signer, principal);
            Flow::Go
        },
        Err(m) => Flow::Fail(Error::Identity(m)),
    }
}

/// Try the PEM content as a secp256k1 key, then as an ed25519 key, in that
/// order; if both fail the identity command fails.
fn finish_pem(s: &mut Session, name: String, content: Vec<u8>) -> (r: Flow)
    ensures
        r is Go || r is Fail,
        (r is Go <==> crate::ident::secp_pem_ok(content@) || crate::ident::basic_pem_ok(
            content@,
        )),
        (r is Go ==> identity_installed(
            name@,
            old(s).env@,
            old(s).identities@,
            old(s).output@,
            *final(s),
        ) && final(s).stack == old(s).stack && final(s).base_path == old(s).base_path && final(s).funcs == old(s).funcs && final(s).canisters == old(s).canisters && final(s).config == old(s).config),
        (r matches Flow::Fail(e) ==> e is Identity && *final(s) == *old(s)),
        final(s).pending == old(s).pending,
        final(s).verbose == old(s).verbose,
        old(s).identities@.dom() <= final(s).identities@.dom(),
{
    match secp_from_pem(&content) {
        Ok(i) => finish_new_identity(s, name, Signer::Secp(Arc::new(i))),
        Err(_) => match basic_from_pem(&content) {
            Ok(i) => finish_new_identity(s, name, Signer::Basic(Arc::new(i))),
            Err(m) => Flow::Fail(Error::Identity(m)),
        },
    }
}

/// The identity resolver's contract, per configuration variant: `Empty`
/// always resolves (reusing the cached principal where one exists); `Pem`
/// and `Hsm` turn to the environment.
pub open spec fn identity_post(
    name: Seq<char>,
    cfg: IdentityConfig,
    env0: Map<Seq<char>, Value>,
    ids0: Map<Seq<char>, IdentityEntry>,
    out0: Seq<OutputItem>,
    base0: Seq<u8>,
    post: Session,
    r: Flow,
) -> bool {
    &&& (cfg is Empty ==> r is Go && identity_installed(name, env0, ids0, out0, post))
    &&& (cfg is Empty && ids0.contains_key(name) ==> post.identities@[name].principal@
        == ids0[name].principal@)
    &&& (cfg matches IdentityConfig::Pem(p) ==> (r matches Flow::Suspend(a) && (
    a matches Action::ReadFile { path } && path@ == path_join(base0, p@)) && (post.pending
        matches Pending::AwaitFile { purpose, path: p2 } && (
    purpose matches FilePurpose::PemFile { name: n2 } && n2@ == name) && p2@ == path_join(
        base0,
        p@,
    ))))
    &&& (cfg matches IdentityConfig::Hsm { slot_index, key_id } ==> (r matches Flow::Suspend(a)
        && (a matches Action::MakeHsmIdentity { slot_index: si, key_id: ki } && si == slot_index
        && ki@ == key_id@) && (post.pending matches Pending::AwaitHsm { name: n3 } && n3@
        == name)))
}

/// Resolve an identity configuration into a signer: hardware identities and
/// PEM files need the environment; `Empty` reuses the cache or synthesizes a
/// fresh random key.
fn run_identity(s: &mut Session, name: String, config: IdentityConfig) -> (r: Flow)
    requires
        old(s).pending is Idle,
    ensures
        identity_post(
            name@,
            config,
            old(s).env@,
            old(s).identities@,
            old(s).output@,
            old(s).base_path@,
            *final(s),
            r,
        ),
        (r is Go ==> final(s).pending is Idle),
        (r matches Flow::Suspend(_) ==> !(final(s).pending is Idle) && final(s).env == old(s).env
            && final(s).output == old(s).output && final(s).identities == old(s).identities),
        (r is Fail ==> *final(s) == *old(s)),
        final(s).stack == old(s).stack,
        final(s).base_path == old(s).base_path,
        final(s).funcs == old(s).funcs,
        final(s).canisters == old(s).canisters,
        final(s).config == old(s).config,
        final(s).verbose == old(s).verbose,
        old(s).identities@.dom() <= final(s).identities@.dom(),
{
    match config {
        IdentityConfig::Hsm { slot_index, key_id } => {
            let ki = key_id.clone();
            s.pending = Pending::AwaitHsm { name };
            Flow::Suspend(Action::MakeHsmIdentity { slot_index, key_id: ki })
        },
        IdentityConfig::Pem(path) => {
            let full = resolve_path(&s.base_path, &path);
            let p2 = dup_bytes(&full);
            s.pending = Pending::AwaitFile { purpose: FilePurpose::PemFile { name }, path: p2 };
            Flow::Suspend(Action::ReadFile { path: full })
        },
        IdentityConfig::Empty => {
            let cached: Option<(Signer, String)> = match s.identities.get(&name) {
                Some(e) => Some((e.signer.clone(), e.principal.clone())),
                None => None,
            };
            match cached {
                Some((signer, principal)) => {
                    install_identity(s, name, signer, principal);
                    Flow::Go
                },
                None => {
                    let key = fresh_signing_key();
                    let signer = Signer::Basic(Arc::new(basic_from_key(key)));
                    finish_new_identity(s, name, signer)
                },
            }
        },
    }
}

/// Branch on an evaluated `If` condition, which must be boolean.
fn if_step(s: &mut Session, v: Value, then: Vec<Command>, else_: Vec<Command>) -> (r: Flow)
    ensures
        (!(v@ is Bool) ==> (r matches Flow::Fail(e) && e is Type && *final(s) == *old(s))),
        (v@ is Bool ==> r is Go),
        outer_dir(*final(s)) == outer_dir(*old(s)),
        final(s).env == old(s).env,
        final(s).funcs == old(s).funcs,
        final(s).identities == old(s).identities,
        final(s).canisters == old(s).canisters,
        final(s).config == old(s).config,
        final(s).output == old(s).output,
        final(s).base_path == old(s).base_path,
        final(s).verbose == old(s).verbose,
        final(s).pending == old(s).pending,
        final(s).stack@.len() >= old(s).stack@.len(),
        final(s).stack@.subrange(0, old(s).stack@.len() as int) == old(s).stack@,
{
    match v {
        Value::Bool(b) => {
            let ghost st0 = s.stack@;
            s.stack.push(Frame::Block { cmds: if b { then } else { else_ } });
            proof {
                lemma_outer_snoc(st0, s.stack@.last(), s.base_path@);
                assert(s.stack@.drop_last() =~= st0);
            }
            Flow::Go
        },
        _ => Flow::Fail(Error::Type("if condition is not a boolean expression".to_owned())),
    }
}

/// One check of a `While` loop: re-evaluate the condition, which must be
/// boolean; when it holds, queue one run of the body and another check.
fn while_step(s: &mut Session, cond: Exp, body: Vec<Command>) -> (r: Flow)
    requires
        old(s).pending is Idle,
    ensures
        (eval_model(cond, old(s).env@) matches EvalModel::Val(m) ==> (!(m is Bool)
            ==> (r matches Flow::Fail(e) && e is Type && *final(s) == *old(s))) && ((
        m matches ValueModel::Bool(b) && !b) ==> r is Go && *final(s) == *old(s))),
        (eval_model(cond, old(s).env@) matches EvalModel::Missing(x) ==> (r matches Flow::Fail(e)
            && e is Eval && *final(s) == *old(s))),
        (eval_model(cond, old(s).env@) matches EvalModel::Remote(d) ==> (r matches Flow::Suspend(
            a,
        ) && (a matches Action::CanisterCall { call } && call@ == d) && (final(s).pending
            matches Pending::AwaitCall { cont } && cont is WhileC) && final(s).stack == old(s).stack)),
        (eval_model(cond, old(s).env@) matches EvalModel::Val(m) ==> ((
        m matches ValueModel::Bool(b) && b) ==> r is Go && final(s).stack@.len() == old(s).stack@.len() + 2 && final(s).stack@.take(old(s).stack@.len() as int) == old(s).stack@
            && final(s).stack@[old(s).stack@.len() as int] == (Frame::WhileCheck { cond, body })
            && (final(s).stack@.last() matches Frame::Block { cmds: bc } && cmds_model(bc@)
            == cmds_model(body@)))),
        (r is Fail ==> *final(s) == *old(s)),
        (r is Go ==> final(s).pending is Idle),
        (r matches Flow::Suspend(_) ==> !(final(s).pending is Idle)),
        outer_dir(*final(s)) == outer_dir(*old(s)),
        final(s).env == old(s).env,
        final(s).funcs == old(s).funcs,
        final(s).identities == old(s).identities,
        final(s).canisters == old(s).canisters,
        final(s).config == old(s).config,
        final(s).output == old(s).output,
        final(s).base_path == old(s).base_path,
        final(s).verbose == old(s).verbose,
{
    match eval_exp(&cond, s) {
        EvalR::Val(v) => match v {
            Value::Bool(b) => {
                if b {
                    let copy = crate::command::dup_commands(&body);
                    let ghost st0 = s.stack@;
                    s.stack.push(Frame::WhileCheck { cond, body });
                    proof {
                        lemma_outer_snoc(st0, s.stack@.last(), s.base_path@);
                        assert(s.stack@.drop_last() =~= st0);
                    }
                    let ghost st1 = s.stack@;
                    s.stack.push(Frame::Block { cmds: copy });
                    proof {
                        lemma_outer_snoc(st1, s.stack@.last(), s.base_path@);
                        assert(s.stack@.drop_last() =~= st1);
                    }
                    Flow::Go
                } else {
                    Flow::Go
                }
            },
            _ => Flow::Fail(
                Error::Type("while condition is not a boolean expression".to_owned()),
            ),
        },
        EvalR::Remote(d) => {
            s.pending = Pending::AwaitCall { cont: Cont::WhileC { cond, body } };
            Flow::Suspend(Action::CanisterCall { call: d })
        },
        EvalR::Fail(e) => Flow::Fail(e),
    }
}

/// Begin a `Load` once its target is evaluated: the target must be textual;
/// a trailing `?` marks fail-safe mode and is stripped before the path is
/// resolved against the working directory.
fn start_load(s: &mut Session, v: Value) -> (r: Flow)
    requires
        old(s).pending is Idle,
    ensures
        (v@ matches ValueModel::Text(t) ==> (r matches Flow::Suspend(a)
            && (a matches Action::ReadFile { path } && path@ == path_join(
            old(s).base_path@,
            strip_q(t),
        )) && (final(s).pending matches Pending::AwaitFile { purpose, path: p2 }
            && (purpose matches FilePurpose::LoadScript { fail_safe } && fail_safe == is_failsafe(
            t,
        )) && p2@ == path_join(old(s).base_path@, strip_q(t))))),
        (!(v@ is Text) ==> (r matches Flow::Fail(e) && e is Type && *final(s) == *old(s))),
        final(s).stack == old(s).stack,
        final(s).base_path == old(s).base_path,
        final(s).env == old(s).env,
        final(s).funcs == old(s).funcs,
        final(s).identities == old(s).identities,
        final(s).canisters == old(s).canisters,
        final(s).config == old(s).config,
        final(s).output == old(s).output,
        final(s).verbose == old(s).verbose,
{
    match v {
        Value::Text(t) => {
            let fail_safe = t.len() > 0 && t[t.len() - 1] == 63;
            let ghost tv = t@;
            let stripped = if fail_safe {
                take_prefix(&t, t.len() - 1)
            } else {
                t
            };
            proof {
                if is_failsafe(tv) {
                    assert(tv.take(tv.len() as int - 1) =~= tv.drop_last());
                }
                assert(stripped@ == strip_q(tv));
            }
            let full = resolve_path(&s.base_path, &stripped);
            let p2 = dup_bytes(&full);
            s.pending = Pending::AwaitFile {
                purpose: FilePurpose::LoadScript { fail_safe },
                path: p2,
            };
            Flow::Suspend(Action::ReadFile { path: full })
        },
        _ => Flow::Fail(Error::Type("load needs to be a file path".to_owned())),
    }
}

/// Bind the shown value to `_`, then add the timing line in verbose mode.
fn show_finish(s: &mut Session, v: Value, cost: Option<i64>, start: std::time::Instant)
    ensures
        env_cost_bound(old(s).env@, final(s).env@, "_"@, v@, cost),
        show_output(old(s).output@, final(s).output@, v@, old(s).verbose),
        final(s).funcs == old(s).funcs,
        final(s).identities == old(s).identities,
        final(s).canisters == old(s).canisters,
        final(s).config == old(s).config,
        final(s).base_path == old(s).base_path,
        final(s).verbose == old(s).verbose,
        final(s).stack == old(s).stack,
        final(s).pending == old(s).pending,
{
    let ghost out0 = s.output@;
    bind_value(s, "_".to_owned(), v, cost, true);
    if s.verbose {
        let ghost out1 = s.output@;
        let t = elapsed_text(&start);
        s.output.push(OutputItem::Timing(t));
        proof {
            assert(s.output@.subrange(0, out0.len() as int) =~= out1.subrange(
                0,
                out0.len() as int,
            ));
        }
    }
}

/// What executing one command means, stated against the stores the command
/// saw (`env0` the variable bindings, `funcs0` the function table, `ids0`
/// the identity cache, `cans0` the canister metadata, `cfg0` the
/// configuration, `out0` the output so far, `base0` the working directory,
/// `verbose0` the verbosity): per-variant effects, and preservation of
/// whatever the variant does not touch. The execution stack is deliberately
/// not mentioned; the frame discipline is stated where frames are handled.
pub open spec fn command_post(
    c: Command,
    env0: Map<Seq<char>, Value>,
    funcs0: Map<Seq<char>, FuncDef>,
    ids0: Map<Seq<char>, IdentityEntry>,
    cans0: Map<Seq<char>, Vec<u8>>,
    cfg0: Option<candid_parser::configs::Configs>,
    out0: Seq<OutputItem>,
    base0: Seq<u8>,
    verbose0: bool,
    post: Session,
    r: Flow,
) -> bool {
    &&& post.verbose == verbose0
    &&& ids0.dom() <= post.identities@.dom()
    &&& (!(c is Identity) ==> post.identities@ == ids0)
    &&& (!(c is Func) ==> post.funcs@ == funcs0)
    &&& (!(c is Import) ==> post.canisters@ == cans0)
    &&& (!(c is Config) ==> post.config == cfg0)
    &&& (!(c is Let) && !(c is Show) && !(c is Identity) && !(c is Import) ==> post.env@ == env0)
    &&& (!(c is Show) && !(c is Identity) ==> post.output@ == out0)
    &&& (!(r is Fail) ==> post.base_path@ == base0)
    &&& (c matches Command::Func { name, args, body } ==> r is Go && post.funcs@ == funcs0.insert(
        name@,
        FuncDef { args, body },
    ) && post.env@ == env0 && post.output@ == out0)
    &&& (c matches Command::Let(name, e) ==> (eval_model(e, env0) matches EvalModel::Val(m) ==> r
        is Go && env_bound(env0, post.env@, name@, m) && post.output@ == out0))
    &&& (c matches Command::Let(name, e) ==> (eval_model(e, env0) matches EvalModel::Missing(x)
        ==> (r matches Flow::Fail(err) && err is Eval && post.env@ == env0)))
    &&& (c matches Command::Let(name, e) ==> (eval_model(e, env0) matches EvalModel::Remote(d)
        ==> (r matches Flow::Suspend(a) && (a matches Action::CanisterCall { call } && call@ == d)
        && (post.pending matches Pending::AwaitCall { cont } && (cont matches Cont::LetC {
        name: n2 } && n2@ == name@)))))
    &&& (c matches Command::Show(e) ==> (eval_model(e, env0) matches EvalModel::Val(m) ==> r is Go
        && env_bound(env0, post.env@, "_"@, m) && show_output(out0, post.output@, m, verbose0)))
    &&& (c matches Command::Show(e) ==> (eval_model(e, env0) matches EvalModel::Remote(d) ==> (
    r matches Flow::Suspend(a) && (a matches Action::CanisterCall { call } && call@ == d)
        && (post.pending matches Pending::AwaitCall { cont } && cont is ShowC))))
    &&& (c matches Command::Assert(op, l, r2) ==> (eval_model(l, env0) matches EvalModel::Val(lm)
        ==> (eval_model(r2, env0) matches EvalModel::Val(rm) ==> (r is Go <==> assert_model(
        op,
        lm,
        rm,
    )) && (!assert_model(op, lm, rm) ==> (r matches Flow::Fail(e2) && (
    e2 matches Error::AssertionFailure(lv, rv) && lv@ == lm && rv@ == rm))) && post.env@ == env0
        && post.output@ == out0)))
    &&& (c matches Command::If { cond, then, else_ } ==> (eval_model(cond, env0)
        matches EvalModel::Val(m) ==> (!(m is Bool) ==> (r matches Flow::Fail(e2) && e2
        is Type))))
    &&& (c matches Command::While { cond, body } ==> (eval_model(cond, env0)
        matches EvalModel::Val(m) ==> (!(m is Bool) ==> (r matches Flow::Fail(e2) && e2 is Type))
        && ((m matches ValueModel::Bool(b) && !b) ==> r is Go)))
    &&& (c matches Command::Load(e) ==> (eval_model(e, env0) matches EvalModel::Val(m) ==> (
    m matches ValueModel::Text(t) ==> (r matches Flow::Suspend(a) && (
    a matches Action::ReadFile { path } && path@ == path_join(base0, strip_q(t))) && (post.pending
        matches Pending::AwaitFile { purpose, path: p2 } && (
    purpose matches FilePurpose::LoadScript { fail_safe } && fail_safe == is_failsafe(t)) && p2@
        == path_join(base0, strip_q(t))))) && (!(m is Text) ==> (r matches Flow::Fail(e2) && e2
        is Type))))
    &&& (c matches Command::Load(e) ==> (eval_model(e, env0) matches EvalModel::Remote(d) ==> (
    r matches Flow::Suspend(a) && (a matches Action::CanisterCall { call } && call@ == d)
        && (post.pending matches Pending::AwaitCall { cont } && cont is LoadC))))
    &&& (c matches Command::Identity(name, cfg) ==> identity_post(
        name@,
        cfg,
        env0,
        ids0,
        out0,
        base0,
        post,
        r,
    ))
    &&& (c matches Command::Import(name, principal, d) ==> (d is None ==> r is Go && env_bound(
        env0,
        post.env@,
        name@,
        ValueModel::Principal(principal@),
    ) && post.output@ == out0 && post.canisters@ == cans0))
    &&& (c matches Command::Import(name, principal, d) ==> (d matches Some(dp) ==> (
    r matches Flow::Suspend(a) && (a matches Action::ResolveInterface { path } && path@
        == path_join(base0, dp@)) && (post.pending matches Pending::AwaitInterface {
        name: n2, principal: p2 } && n2@ == name@ && p2@ == principal@) && post.canisters@
        == cans0)))
    &&& (c matches Command::Config(text) ==> (!ends_with_spec(text@, toml_suffix()) ==> (r is Go
        <==> toml_ok(text@)) && (r is Go ==> post.config is Some) && (!toml_ok(text@) ==> (
    r matches Flow::Fail(e2) && e2 is Config))) && (ends_with_spec(text@, toml_suffix()) ==> (
    r matches Flow::Suspend(a) && (a matches Action::ReadFile { path } && path@ == path_join(
        base0,
        text@,
    )) && (post.pending matches Pending::AwaitFile { purpose, path: p3 } && purpose is ConfigFile
        && p3@ == path_join(base0, text@)))))
}

/// How a command's immediate flow surfaces as a machine outcome: success
/// continues, a needed action suspends, and an error — after the unwinding
/// that restores every saved directory — is the machine's final answer.
pub open spec fn flow_outcome(fl: Flow, r: Outcome) -> bool {
    match fl {
        Flow::Go => r is More,
        Flow::Suspend(a) => r == Outcome::Pending(a),
        Flow::Fail(e) => r == Outcome::Done(Err(e)),
    }
}

/// One check of a surfaced `While` frame: the stores are untouched, the
/// condition is re-evaluated against the bindings, a non-boolean is a type
/// error, false drops the frame, true queues one run of the body below a
/// fresh check, and a remote condition suspends on the call.
pub open spec fn while_check_post(
    cond: Exp,
    body: Vec<Command>,
    pre: Session,
    post: Session,
    r: Outcome,
) -> bool {
    &&& post.env@ == pre.env@
    &&& post.funcs == pre.funcs
    &&& post.identities == pre.identities
    &&& post.canisters == pre.canisters
    &&& post.output == pre.output
    &&& post.config == pre.config
    &&& post.verbose == pre.verbose
    &&& (eval_model(cond, pre.env@) matches EvalModel::Val(m) ==> (!(m is Bool) ==> (
    r matches Outcome::Done(d) && (d matches Err(e) && e is Type))) && ((
    m matches ValueModel::Bool(b) && !b) ==> r is More && post.base_path == pre.base_path
        && post.stack@ == pre.stack@.drop_last()) && ((m matches ValueModel::Bool(b2) && b2)
        ==> r is More && post.base_path == pre.base_path && post.stack@.len() == pre.stack@.len()
        + 1 && post.stack@.subrange(0, pre.stack@.len() - 1) == pre.stack@.drop_last()
        && post.stack@[pre.stack@.len() - 1] == (Frame::WhileCheck { cond, body })
        && (post.stack@.last() matches Frame::Block { cmds: bc } && cmds_model(bc@) == cmds_model(
        body@,
    ))))
    &&& (eval_model(cond, pre.env@) matches EvalModel::Missing(x) ==> (r matches Outcome::Done(d)
        && (d matches Err(e) && e is Eval)))
    &&& (eval_model(cond, pre.env@) matches EvalModel::Remote(d2) ==> (r matches Outcome::Pending(
        a,
    ) && (a matches Action::CanisterCall { call } && call@ == d2)))
}

/// What one machine step does with the frame on top of the stack: a restore
/// frame restores exactly its saved directory; an exhausted block is
/// dropped; a block's first command runs with its full per-command
/// guarantees, the remainder staying queued beneath whatever it pushed; a
/// loaded script behaves the same, its output possibly led by the verbose
/// source echo; a loop frame re-checks its condition.
pub open spec fn frame_post(f: Frame, pre: Session, post: Session, r: Outcome) -> bool {
    match f {
        Frame::RestoreDir { saved } => r is More && post.base_path@ == saved@ && post.stack@
            == pre.stack@.drop_last() && post.env == pre.env && post.funcs == pre.funcs
            && post.identities == pre.identities && post.canisters == pre.canisters && post.output
            == pre.output && post.config == pre.config,
        Frame::Block { cmds } => {
            &&& (cmds@.len() == 0 ==> r is More && post.stack@ == pre.stack@.drop_last()
                && post.env == pre.env && post.funcs == pre.funcs && post.identities
                == pre.identities && post.canisters == pre.canisters && post.output == pre.output
                && post.config == pre.config && post.base_path == pre.base_path)
            &&& (cmds@.len() > 0 ==> {
                &&& (r is More ==> command_post(cmds@[0], pre.env@, pre.funcs@, pre.identities@,
                    pre.canisters@, pre.config, pre.output@, pre.base_path@, pre.verbose, post,
                    Flow::Go))
                &&& (r matches Outcome::Pending(a) ==> command_post(cmds@[0], pre.env@,
                    pre.funcs@, pre.identities@, pre.canisters@, pre.config, pre.output@,
                    pre.base_path@, pre.verbose, post, Flow::Suspend(a)))
                &&& (r matches Outcome::Done(d) ==> d matches Err(e) && command_post(cmds@[0],
                    pre.env@, pre.funcs@, pre.identities@, pre.canisters@, pre.config,
                    pre.output@, pre.base_path@, pre.verbose, post, Flow::Fail(e)))
                &&& (!(r is Done) ==> post.stack@.len() >= pre.stack@.len() && post.stack@.subrange(
                    0,
                    pre.stack@.len() - 1,
                ) == pre.stack@.drop_last() && (post.stack@[pre.stack@.len() - 1]
                    matches Frame::Block { cmds: c2 } && c2@ == cmds@.drop_first()))
            })
        },
        Frame::Loaded { cmds, script } => {
            &&& (cmds@.len() == 0 ==> r is More && post.stack@ == pre.stack@.drop_last()
                && post.env == pre.env && post.funcs == pre.funcs && post.identities
                == pre.identities && post.canisters == pre.canisters && post.output == pre.output
                && post.config == pre.config && post.base_path == pre.base_path)
            &&& (cmds@.len() > 0 ==> {
                &&& (r is More ==> exists|mid: Seq<OutputItem>|
                    #[trigger] command_post(cmds@[0].0, pre.env@, pre.funcs@, pre.identities@,
                    pre.canisters@, pre.config, mid, pre.base_path@, pre.verbose, post, Flow::Go)
                    && echo_extends(pre.output@, mid))
                &&& (r matches Outcome::Pending(a) ==> exists|mid: Seq<OutputItem>|
                    #[trigger] command_post(cmds@[0].0, pre.env@, pre.funcs@, pre.identities@,
                    pre.canisters@, pre.config, mid, pre.base_path@, pre.verbose, post,
                    Flow::Suspend(a)) && echo_extends(pre.output@, mid))
                &&& (r matches Outcome::Done(d) ==> d matches Err(e) && exists|
                    mid: Seq<OutputItem>,
                |
                    #[trigger] command_post(cmds@[0].0, pre.env@, pre.funcs@, pre.identities@,
                    pre.canisters@, pre.config, mid, pre.base_path@, pre.verbose, post,
                    Flow::Fail(e)) && echo_extends(pre.output@, mid))
                &&& (!(r is Done) ==> post.stack@.len() >= pre.stack@.len() && post.stack@.subrange(
                    0,
                    pre.stack@.len() - 1,
                ) == pre.stack@.drop_last() && (post.stack@[pre.stack@.len() - 1]
                    matches Frame::Loaded { cmds: c2, script: s2 } && c2@ == cmds@.drop_first()))
            })
        },
        Frame::WhileCheck { cond, body } => while_check_post(cond, body, pre, post, r),
    }
}

/// Execute one command's synchronous part. Control-flow bodies are pushed as
/// stack frames; whatever needs the environment suspends.
fn exec_command(c: Command, s: &mut Session) -> (r: Flow)
    requires
        old(s).pending is Idle,
    ensures
        session_evolves(*old(s), *final(s)),
        command_post(
            c,
            old(s).env@,
            old(s).funcs@,
            old(s).identities@,
            old(s).canisters@,
            old(s).config,
            old(s).output@,
            old(s).base_path@,
            old(s).verbose,
            *final(s),
            r,
        ),
        (r is Go ==> final(s).pending is Idle),
        (r matches Flow::Suspend(_) ==> !(final(s).pending is Idle) && final(s).stack == old(s).stack && final(s).env == old(s).env && final(s).funcs == old(s).funcs && final(s).identities == old(s).identities && final(s).canisters == old(s).canisters && final(s).output == old(s).output && final(s).base_path == old(s).base_path && final(s).config
            == old(s).config),
        (r is Fail ==> final(s).pending is Idle && final(s).stack == old(s).stack && final(s).base_path == old(s).base_path),
        final(s).stack@.len() >= old(s).stack@.len(),
        final(s).stack@.subrange(0, old(s).stack@.len() as int) == old(s).stack@,
        (!(c is If) && !(c is While) ==> final(s).stack == old(s).stack),
        (c matches Command::While { cond, body } ==> (eval_model(cond, old(s).env@)
            matches EvalModel::Val(m) ==> ((m matches ValueModel::Bool(b) && !b) ==> final(s).stack == old(s).stack))),

{
    match c {
        Command::Func { name, args, body } => {
            s.funcs.insert(name, FuncDef { args, body });
            Flow::Go
        },
        Command::Let(name, e) => match eval_exp(&e, s) {
            EvalR::Val(v) => {
                bind_value(s, name, v, None, false);
                Flow::Go
            },
            EvalR::Remote(d) => {
                s.pending = Pending::AwaitCall { cont: Cont::LetC { name } };
                Flow::Suspend(Action::CanisterCall { call: d })
            },
            EvalR::Fail(err) => Flow::Fail(err),
        },
        Command::Show(e) => {
            let start = time_now();
            match eval_exp(&e, s) {
                EvalR::Val(v) => {
                    show_finish(s, v, None, start);
                    Flow::Go
                },
                EvalR::Remote(d) => {
                    s.pending = Pending::AwaitCall { cont: Cont::ShowC { start } };
                    Flow::Suspend(Action::CanisterCall { call: d })
                },
                EvalR::Fail(err) => Flow::Fail(err),
            }
        },
        Command::Assert(op, l, r2) => match eval_exp(&l, s) {
            EvalR::Val(lv) => match eval_exp(&r2, s) {
                EvalR::Val(rv) => match check_assert(&op, lv, rv) {
                    Ok(()) => Flow::Go,
                    Err(e2) => Flow::Fail(e2),
                },
                EvalR::Remote(d) => {
                    s.pending = Pending::AwaitCall {
                        cont: Cont::AssertRightC { op, left: lv },
                    };
                    Flow::Suspend(Action::CanisterCall { call: d })
                },
                EvalR::Fail(err) => Flow::Fail(err),
            },
            EvalR::Remote(d) => {
                s.pending = Pending::AwaitCall { cont: Cont::AssertLeftC { op, right: r2 } };
                Flow::Suspend(Action::CanisterCall { call: d })
            },
            EvalR::Fail(err) => Flow::Fail(err),
        },
        Command::If { cond, then, else_ } => match eval_exp(&cond, s) {
            EvalR::Val(v) => if_step(s, v, then, else_),
            EvalR::Remote(d) => {
                s.pending = Pending::AwaitCall { cont: Cont::IfC { then, else_ } };
                Flow::Suspend(Action::CanisterCall { call: d })
            },
            EvalR::Fail(err) => Flow::Fail(err),
        },
        Command::While { cond, body } => while_step(s, cond, body),
        Command::Load(e) => match eval_exp(&e, s) {
            EvalR::Val(v) => start_load(s, v),
            EvalR::Remote(d) => {
                s.pending = Pending::AwaitCall { cont: Cont::LoadC };
                Flow::Suspend(Action::CanisterCall { call: d })
            },
            EvalR::Fail(err) => Flow::Fail(err),
        },
        Command::Identity(name, config) => run_identity(s, name, config),
        Command::Import(name, principal, did) => match did {
            Some(dp) => {
                let full = resolve_path(&s.base_path, &dp);
                s.pending = Pending::AwaitInterface { name, principal };
                Flow::Suspend(Action::ResolveInterface { path: full })
            },
            None => {
                s.env.insert(name, Value::Principal(principal));
                Flow::Go
            },
        },
        Command::Config(text) => {
            let suffix: Vec<u8> = vec![46u8, 116u8, 111u8, 109u8, 108u8];
            proof {
                assert(suffix@ =~= toml_suffix());
            }
            if crate::paths::ends_with(&text, &suffix) {
                let full = resolve_path(&s.base_path, &text);
                let p2 = dup_bytes(&full);
                s.pending = Pending::AwaitFile { purpose: FilePurpose::ConfigFile, path: p2 };
                Flow::Suspend(Action::ReadFile { path: full })
            } else {
                match parse_configs(&text) {
                    Ok(cfg) => {
                        s.config = Some(cfg);
                        Flow::Go
                    },
                    Err(m) => Flow::Fail(Error::Config(m)),
                }
            }
        },
    }
}

/// The output may have gained one echoed source slice and nothing else.
pub open spec fn echo_extends(out0: Seq<OutputItem>, out1: Seq<OutputItem>) -> bool {
    out1 == out0 || (out1.len() == out0.len() + 1 && out1.subrange(0, out0.len() as int) == out0
        && out1.last() is Echo)
}

/// What a pending continuation guarantees of the machine's answer to a
/// delivered call result.
pub open spec fn cont_post(
    cont: Cont,
    v: Value,
    cost: Option<i64>,
    pre: Session,
    post: Session,
    r: Flow,
) -> bool {
    &&& (cont matches Cont::LetC { name } ==> r is Go && env_cost_bound(
        pre.env@,
        post.env@,
        name@,
        v@,
        cost,
    ) && post.output@ == pre.output@ && post.stack == pre.stack)
    &&& (cont is ShowC ==> r is Go && env_cost_bound(pre.env@, post.env@, "_"@, v@, cost)
        && show_output(pre.output@, post.output@, v@, pre.verbose) && post.stack == pre.stack)
    &&& (cont matches Cont::AssertRightC { op, left } ==> (r is Go <==> assert_model(
        op,
        left@,
        v@,
    )) && (!assert_model(op, left@, v@) ==> (r matches Flow::Fail(e) && (
    e matches Error::AssertionFailure(lv, rv) && lv@ == left@ && rv@ == v@))) && post.env@
        == pre.env@ && post.stack == pre.stack)
    &&& (cont matches Cont::IfC { then, else_ } ==> (!(v@ is Bool) ==> (r matches Flow::Fail(e)
        && e is Type)))
    &&& (cont matches Cont::WhileC { cond, body } ==> (!(v@ is Bool) ==> (r matches Flow::Fail(e)
        && e is Type)))
    &&& (cont is LoadC ==> (v@ matches ValueModel::Text(t) ==> (r matches Flow::Suspend(a) && (
    a matches Action::ReadFile { path } && path@ == path_join(pre.base_path@, strip_q(t))))) && (!(
    v@ is Text) ==> (r matches Flow::Fail(e) && e is Type)))
}

/// Resume a suspended evaluation with the value the environment produced.
fn apply_cont(s: &mut Session, cont: Cont, v: Value, cost: Option<i64>) -> (r: Flow)
    requires
        old(s).pending is Idle,
    ensures
        session_evolves(*old(s), *final(s)),
        (r is Go ==> final(s).pending is Idle),
        (r matches Flow::Suspend(_) ==> !(final(s).pending is Idle)),
        (r is Fail ==> final(s).pending is Idle && final(s).stack == old(s).stack
            && final(s).base_path == old(s).base_path),
        (r matches Flow::Suspend(_) ==> final(s).stack == old(s).stack && final(s).env == old(s).env && final(s).funcs == old(s).funcs && final(s).identities == old(s).identities
            && final(s).canisters == old(s).canisters && final(s).output == old(s).output
            && final(s).base_path == old(s).base_path && final(s).config == old(s).config),
        cont_post(cont, v, cost, *old(s), *final(s), r),
{
    match cont {
        Cont::LetC { name } => {
            bind_value(s, name, v, cost, false);
            Flow::Go
        },
        Cont::ShowC { start } => {
            show_finish(s, v, cost, start);
            Flow::Go
        },
        Cont::AssertLeftC { op, right } => match eval_exp(&right, s) {
            EvalR::Val(rv) => match check_assert(&op, v, rv) {
                Ok(()) => Flow::Go,
                Err(e) => Flow::Fail(e),
            },
            EvalR::Remote(d) => {
                s.pending = Pending::AwaitCall { cont: Cont::AssertRightC { op, left: v } };
                Flow::Suspend(Action::CanisterCall { call: d })
            },
            EvalR::Fail(e) => Flow::Fail(e),
        },
        Cont::AssertRightC { op, left } => match check_assert(&op, left, v) {
            Ok(()) => Flow::Go,
            Err(e) => Flow::Fail(e),
        },
        Cont::IfC { then, else_ } => if_step(s, v, then, else_),
        Cont::WhileC { cond, body } => match v {
            Value::Bool(b) => {
                if b {
                    let copy = crate::command::dup_commands(&body);
                    let ghost st0 = s.stack@;
                    s.stack.push(Frame::WhileCheck { cond, body });
                    proof {
                        lemma_outer_snoc(st0, s.stack@.last(), s.base_path@);
                        assert(s.stack@.drop_last() =~= st0);
                    }
                    let ghost st1 = s.stack@;
                    s.stack.push(Frame::Block { cmds: copy });
                    proof {
                        lemma_outer_snoc(st1, s.stack@.last(), s.base_path@);
                        assert(s.stack@.drop_last() =~= st1);
                    }
                }
                Flow::Go
            },
            _ => Flow::Fail(
                Error::Type("while condition is not a boolean expression".to_owned()),
            ),
        },
        Cont::LoadC => start_load(s, v),
    }
}

fn find_newline(b: &Vec<u8>) -> (r: Option<usize>)
    ensures
        (r matches Some(i) ==> i < b@.len() && b@[i as int] == 10),
{
    let mut i: usize = 0;
    while i < b.len()
        invariant
            i <= b@.len(),
        decreases b@.len() - i,
    {
        if b[i] == 10 {
            return Some(i);
        }
        i = i + 1;
    }
    None
}

/// Drop a leading `#!` line (through to, and keeping, its newline).
fn strip_shebang(content: Vec<u8>) -> Vec<u8> {
    if content.len() >= 2 && content[0] == 35 && content[1] == 33 {
        match find_newline(&content) {
            Some(i) => bytes_from(&content, i),
            None => content,
        }
    } else {
        content
    }
}

/// A loaded script's text arrived: strip a shebang line, substitute
/// environment variables, and hand the text out to be parsed.
fn load_content(s: &mut Session, path: Vec<u8>, content: Vec<u8>) -> (r: Flow)
    requires
        old(s).pending is Idle,
    ensures
        session_evolves(*old(s), *final(s)),
        (r is Go ==> final(s).pending is Idle),
        (r matches Flow::Suspend(_) ==> !(final(s).pending is Idle)),
        (r is Fail ==> final(s).pending is Idle),
        (r matches Flow::Fail(e) ==> e is Parse),
        (r matches Flow::Suspend(a) ==> (a matches Action::ParseScript { path: p2, text } && p2@
            == path@) && (final(s).pending matches Pending::AwaitParse { dir, script } && dir@
            == parent_of(path@))),
        r is Suspend || r is Fail,
        final(s).stack == old(s).stack,
        final(s).base_path == old(s).base_path,
        final(s).env == old(s).env,
        final(s).funcs == old(s).funcs,
        final(s).identities == old(s).identities,
        final(s).canisters == old(s).canisters,
        final(s).config == old(s).config,
        final(s).output == old(s).output,
{
    let stripped = strip_shebang(content);
    match expand_env(&stripped) {
        Err(m) => Flow::Fail(Error::Parse(m)),
        Ok(expanded) => {
            let dir = parent_dir(&path);
            let script = dup_bytes(&expanded);
            s.pending = Pending::AwaitParse { dir, script };
            Flow::Suspend(Action::ParseScript { path, text: expanded })
        },
    }
}

/// Echo one loaded command's source slice in verbose mode.
fn echo_slice(s: &mut Session, script: &Vec<u8>, range: (usize, usize))
    ensures
        echo_extends(old(s).output@, final(s).output@),
        final(s).env == old(s).env,
        final(s).funcs == old(s).funcs,
        final(s).identities == old(s).identities,
        final(s).canisters == old(s).canisters,
        final(s).base_path == old(s).base_path,
        final(s).stack == old(s).stack,
        final(s).pending == old(s).pending,
        final(s).verbose == old(s).verbose,
        final(s).config == old(s).config,
{
    let ghost out0 = s.output@;
    let (lo, hi) = range;
    if lo <= hi && hi <= script.len() {
        let head = take_prefix(script, hi);
        let part = bytes_from(&head, lo);
        let t = bytes_text(&part);
        s.output.push(OutputItem::Echo(t));
        proof {
            assert(s.output@.subrange(0, out0.len() as int) =~= out0);
        }
    }
}

/// Which events answer which suspensions.
pub open spec fn event_fits(p: Pending, ev: Event) -> bool {
    match (p, ev) {
        (Pending::AwaitCall { .. }, Event::CallResult(_)) => true,
        (Pending::AwaitFile { .. }, Event::FileRead(_)) => true,
        (Pending::AwaitParse { .. }, Event::Parsed(_)) => true,
        (Pending::AwaitHsm { .. }, Event::HsmMade(_)) => true,
        (Pending::AwaitInterface { .. }, Event::InterfaceResolved(_)) => true,
        _ => false,
    }
}

/// Apply a delivered event to the suspension it answers.
fn handle_event(s: &mut Session, p: Pending, ev: Event) -> (r: Flow)
    requires
        old(s).pending is Idle,
        event_fits(p, ev),
    ensures
        session_evolves(*old(s), *final(s)),
        (r is Go ==> final(s).pending is Idle),
        (r matches Flow::Suspend(_) ==> !(final(s).pending is Idle)),
        (r is Fail ==> final(s).pending is Idle && final(s).stack == old(s).stack
            && final(s).base_path == old(s).base_path),
        (r matches Flow::Suspend(_) ==> final(s).stack == old(s).stack && final(s).env == old(s).env && final(s).funcs == old(s).funcs && final(s).identities == old(s).identities
            && final(s).canisters == old(s).canisters && final(s).output == old(s).output
            && final(s).base_path == old(s).base_path && final(s).config == old(s).config),
        (p matches Pending::AwaitFile { purpose, path } ==> (
        purpose matches FilePurpose::LoadScript { fail_safe } ==> (
        ev matches Event::FileRead(res) ==> (res is Err && fail_safe ==> r is Go && *final(s)
            == *old(s)) && (res is Err && !fail_safe ==> (r matches Flow::Fail(e2) && (
        e2 matches Error::Io(p2) && p2@ == path@) && *final(s) == *old(s))) && (
        res matches Ok(content) ==> (r matches Flow::Suspend(a4) ==> (
        a4 matches Action::ParseScript { path: pp, text: tt } && pp@ == path@) && (final(s).pending matches Pending::AwaitParse { dir, script } && dir@ == parent_of(path@))) && (
        r matches Flow::Fail(e5) ==> e5 is Parse) && (r is Suspend || r is Fail))))),
        (p matches Pending::AwaitFile { purpose, path } ==> (
        purpose matches FilePurpose::PemFile { name } ==> (ev matches Event::FileRead(res) ==> (
        res is Err ==> (r matches Flow::Fail(e2) && e2 is Identity)) && (res matches Ok(content)
            ==> (r is Go <==> crate::ident::secp_pem_ok(content@) || crate::ident::basic_pem_ok(
            content@,
        )) && (r is Go ==> identity_installed(
            name@,
            old(s).env@,
            old(s).identities@,
            old(s).output@,
            *final(s),
        ) && final(s).stack == old(s).stack && final(s).base_path == old(s).base_path && final(s).funcs == old(s).funcs) && (r is Go || r is Fail) && (r is Fail ==> (
        r matches Flow::Fail(e3) && e3 is Identity)))))),
        (p matches Pending::AwaitFile { purpose, path } ==> (purpose is ConfigFile ==> (
        ev matches Event::FileRead(res) ==> (res is Err ==> (r matches Flow::Fail(e2) && (
        e2 matches Error::Io(p2) && p2@ == path@))) && (res matches Ok(content) ==> (r is Go
            <==> toml_ok(content@)) && (r is Go ==> final(s).config is Some))))),
        (p matches Pending::AwaitCall { cont } ==> (ev matches Event::CallResult(res) ==> (res
            is Err ==> (r matches Flow::Fail(e2) && e2 is Eval)) && (res matches Ok(vc)
            ==> cont_post(cont, vc.0, vc.1, *old(s), *final(s), r)))),
        (p matches Pending::AwaitParse { dir, script } ==> (ev matches Event::Parsed(res) ==> (res
            is Err ==> (r matches Flow::Fail(e2) && e2 is Parse)) && (res is Ok ==> r is Go
            && final(s).base_path@ == dir@ && final(s).env@ == old(s).env@ && final(s).stack@.len() > 0))),
        (p matches Pending::AwaitHsm { name } ==> (ev matches Event::HsmMade(res) ==> (res is Err
            ==> (r matches Flow::Fail(e2) && e2 is Identity)) && (res is Ok ==> r is Go
            && identity_installed(
            name@,
            old(s).env@,
            old(s).identities@,
            old(s).output@,
            *final(s),
        ) && final(s).stack == old(s).stack && final(s).base_path == old(s).base_path && final(s).funcs == old(s).funcs))),
        (p matches Pending::AwaitInterface { name, principal } ==> (
        ev matches Event::InterfaceResolved(res) ==> (res is Err ==> (r matches Flow::Fail(e2)
            && e2 is Parse)) && (res matches Ok(blob) ==> r is Go && env_bound(
            old(s).env@,
            final(s).env@,
            name@,
            ValueModel::Principal(principal@),
        ) && final(s).canisters@.contains_key(principal@) && final(s).stack == old(s).stack))),
{
    match (p, ev) {
        (Pending::AwaitCall { cont }, Event::CallResult(res)) => match res {
            Ok(vc) => apply_cont(s, cont, vc.0, vc.1),
            Err(m) => Flow::Fail(Error::Eval(m)),
        },
        (Pending::AwaitFile { purpose, path }, Event::FileRead(res)) => match purpose {
            FilePurpose::LoadScript { fail_safe } => match res {
                Err(_) => if fail_safe {
                    Flow::Go
                } else {
                    Flow::Fail(Error::Io(path))
                },
                Ok(content) => load_content(s, path, content),
            },
            FilePurpose::ConfigFile => match res {
                Err(_) => Flow::Fail(Error::Io(path)),
                Ok(content) => match parse_configs(&content) {
                    Ok(cfg) => {
                        s.config = Some(cfg);
                        Flow::Go
                    },
                    Err(m) => Flow::Fail(Error::Config(m)),
                },
            },
            FilePurpose::PemFile { name } => match res {
                Err(m) => Flow::Fail(Error::Identity(m)),
                Ok(content) => finish_pem(s, name, content),
            },
        },
        (Pending::AwaitParse { dir, script }, Event::Parsed(res)) => match res {
            Err(m) => Flow::Fail(Error::Parse(m)),
            Ok(cmds) => {
                let mut dir2 = dir;
                core::mem::swap(&mut s.base_path, &mut dir2);
                let ghost st0 = s.stack@;
                s.stack.push(Frame::RestoreDir { saved: dir2 });
                proof {
                    lemma_outer_snoc(st0, s.stack@.last(), s.base_path@);
                    assert(s.stack@.drop_last() =~= st0);
                }
                let ghost st1 = s.stack@;
                s.stack.push(Frame::Loaded { cmds: cmds.0, script });
                proof {
                    lemma_outer_snoc(st1, s.stack@.last(), s.base_path@);
                    assert(s.stack@.drop_last() =~= st1);
                }
                Flow::Go
            },
        },
        (Pending::AwaitHsm { name }, Event::HsmMade(res)) => match res {
            Err(m) => Flow::Fail(Error::Identity(m)),
            Ok(h) => finish_new_identity(s, name, Signer::Hsm(Arc::new(h))),
        },
        (Pending::AwaitInterface { name, principal }, Event::InterfaceResolved(res)) => match res {
            Err(m) => Flow::Fail(Error::Parse(m)),
            Ok(blob) => {
                let p2 = principal.clone();
                s.canisters.insert(p2, blob);
                s.env.insert(name, Value::Principal(principal));
                Flow::Go
            },
        },
        _ => vstd::pervasive::unreached(),
    }
}

/// Abort: drop every stacked frame, restoring each saved working directory
/// on the way out, exactly as the success path would.
fn unwind(s: &mut Session, e: Error) -> (r: Error)
    ensures
        r == e,
        machine_done(*final(s)),
        final(s).base_path@ == outer_dir(*old(s)),
        outer_dir(*final(s)) == outer_dir(*old(s)),
        final(s).env == old(s).env,
        final(s).funcs == old(s).funcs,
        final(s).identities == old(s).identities,
        final(s).canisters == old(s).canisters,
        final(s).output == old(s).output,
        final(s).config == old(s).config,
        final(s).current_identity == old(s).current_identity,
        final(s).active_signer == old(s).active_signer,
        final(s).verbose == old(s).verbose,
{
    s.pending = Pending::Idle;
    while s.stack.len() > 0
        invariant
            s.pending is Idle,
            outer_dir_of(s.stack@, s.base_path@) == outer_dir(*old(s)),
            s.env == old(s).env,
            s.funcs == old(s).funcs,
            s.identities == old(s).identities,
            s.canisters == old(s).canisters,
            s.output == old(s).output,
            s.config == old(s).config,
            s.current_identity == old(s).current_identity,
            s.active_signer == old(s).active_signer,
            s.verbose == old(s).verbose,
        decreases s.stack@.len(),
    {
        let ghost st0 = s.stack@;
        let fopt = s.stack.pop();
        proof {
            assert(st0 =~= s.stack@.push(st0.last()));
            lemma_outer_snoc(s.stack@, st0.last(), s.base_path@);
        }
        match fopt {
            Some(Frame::RestoreDir { saved }) => {
                s.base_path = saved;
            },
            _ => {},
        }
    }
    e
}

/// Run one queued frame step: the next command of the topmost block, one
/// loop-condition check, or one directory restoration.
pub fn step(s: &mut Session) -> (r: Outcome)
    requires
        old(s).pending is Idle,
    ensures
        session_evolves(*old(s), *final(s)),
        (r is Done ==> machine_done(*final(s)) && final(s).base_path@ == outer_dir(*old(s))),
        (r is Pending ==> !(final(s).pending is Idle)),
        (r is More ==> final(s).pending is Idle),
        (old(s).stack@.len() == 0 ==> (r matches Outcome::Done(d) && d is Ok) && *final(s)
            == *old(s)),
        (old(s).stack@.len() > 0 ==> frame_post(old(s).stack@.last(), *old(s), *final(s), r)),
{
    if s.stack.len() == 0 {
        return Outcome::Done(Ok(()));
    }
    let ghost pre = *old(s);
    let ghost st0 = s.stack@;
    let fopt = s.stack.pop();
    proof {
        assert(st0 =~= s.stack@.push(st0.last()));
        lemma_outer_snoc(s.stack@, st0.last(), s.base_path@);
    }
    match fopt {
        None => vstd::pervasive::unreached(),
        Some(Frame::RestoreDir { saved }) => {
            s.base_path = saved;
            Outcome::More
        },
        Some(Frame::Block { cmds }) => {
            let mut cmds = cmds;
            if cmds.len() > 0 {
                let ghost gcmds = cmds@;
                let c = cmds.remove(0);
                let ghost gc = c;
                proof {
                    assert(cmds@ =~= gcmds.drop_first());
                }
                let ghost st1 = s.stack@;
                s.stack.push(Frame::Block { cmds });
                proof {
                    lemma_outer_snoc(st1, s.stack@.last(), s.base_path@);
                    assert(s.stack@.drop_last() =~= st1);
                }
                let fl = exec_command(c, s);
                proof {
                    assert(s.stack@.subrange(0, st0.len() - 1) =~= st0.drop_last());
                }
                match fl {
                    Flow::Go => Outcome::More,
                    Flow::Suspend(a) => Outcome::Pending(a),
                    Flow::Fail(e) => {
                        let e2 = unwind(s, e);
                        proof {
                            assert(command_post(
                                gc,
                                pre.env@,
                                pre.funcs@,
                                pre.identities@,
                                pre.canisters@,
                                pre.config,
                                pre.output@,
                                pre.base_path@,
                                pre.verbose,
                                *s,
                                Flow::Fail(e2),
                            ));
                        }
                        Outcome::Done(Err(e2))
                    },
                }
            } else {
                Outcome::More
            }
        },
        Some(Frame::Loaded { cmds, script }) => {
            let mut cmds = cmds;
            if cmds.len() > 0 {
                let ghost gcmds = cmds@;
                let pair = cmds.remove(0);
                let ghost gc = pair.0;
                proof {
                    assert(cmds@ =~= gcmds.drop_first());
                }
                if s.verbose {
                    echo_slice(s, &script, pair.1);
                }
                let ghost gout = s.output@;
                let ghost st1 = s.stack@;
                s.stack.push(Frame::Loaded { cmds, script });
                proof {
                    lemma_outer_snoc(st1, s.stack@.last(), s.base_path@);
                    assert(s.stack@.drop_last() =~= st1);
                }
                let fl = exec_command(pair.0, s);
                proof {
                    assert(s.stack@.subrange(0, st0.len() - 1) =~= st0.drop_last());
                }
                match fl {
                    Flow::Go => {
                        proof {
                            assert(command_post(
                                gc,
                                pre.env@,
                                pre.funcs@,
                                pre.identities@,
                                pre.canisters@,
                                pre.config,
                                gout,
                                pre.base_path@,
                                pre.verbose,
                                *s,
                                Flow::Go,
                            ) && echo_extends(pre.output@, gout));
                        }
                        Outcome::More
                    },
                    Flow::Suspend(a) => {
                        let ghost ga = a;
                        proof {
                            assert(command_post(
                                gc,
                                pre.env@,
                                pre.funcs@,
                                pre.identities@,
                                pre.canisters@,
                                pre.config,
                                gout,
                                pre.base_path@,
                                pre.verbose,
                                *s,
                                Flow::Suspend(ga),
                            ) && echo_extends(pre.output@, gout));
                        }
                        Outcome::Pending(a)
                    },
                    Flow::Fail(e) => {
                        let e2 = unwind(s, e);
                        proof {
                            assert(command_post(
                                gc,
                                pre.env@,
                                pre.funcs@,
                                pre.identities@,
                                pre.canisters@,
                                pre.config,
                                gout,
                                pre.base_path@,
                                pre.verbose,
                                *s,
                                Flow::Fail(e2),
                            ) && echo_extends(pre.output@, gout));
                        }
                        Outcome::Done(Err(e2))
                    },
                }
            } else {
                Outcome::More
            }
        },
        Some(Frame::WhileCheck { cond, body }) => {
            let fl = while_step(s, cond, body);
            proof {
                if s.stack@.len() == st0.len() + 1 {
                    assert(s.stack@.subrange(0, st0.len() - 1) =~= st0.drop_last());
                }
                if s.stack@.len() == st0.len() - 1 {
                    assert(s.stack@ =~= st0.drop_last());
                }
            }
            match fl {
                Flow::Go => Outcome::More,
                Flow::Suspend(a) => Outcome::Pending(a),
                Flow::Fail(e) => {
                    let e2 = unwind(s, e);
                    Outcome::Done(Err(e2))
                },
            }
        },
    }
}

impl Session {
    /// A fresh session: empty stores, the given working directory and
    /// verbosity, no active identity, machine at rest.
    pub fn new(verbose: bool, base_path: Vec<u8>) -> (r: Session)
        ensures
            r.env@ == Map::<Seq<char>, Value>::empty(),
            r.funcs@ == Map::<Seq<char>, FuncDef>::empty(),
            r.identities@ == Map::<Seq<char>, IdentityEntry>::empty(),
            r.canisters@ == Map::<Seq<char>, Vec<u8>>::empty(),
            r.config is None,
            r.base_path@ == base_path@,
            r.verbose == verbose,
            r.active_signer is None,
            r.output@ == Seq::<OutputItem>::empty(),
            machine_done(r),
    {
        Session {
            env: Dict::new(),
            funcs: Dict::new(),
            identities: Dict::new(),
            canisters: Dict::new(),
            config: None,
            base_path,
            verbose,
            current_identity: "".to_owned(),
            active_signer: None,
            output: Vec::new(),
            stack: Vec::new(),
            pending: Pending::Idle,
        }
    }
}

impl Command {
    /// Execute one command against the session. `Done` means the command ran
    /// to completion (or failed); `Pending` hands the caller an [`Action`]
    /// to perform, after which [`resume`] continues the same command.
    /// Whenever a run finishes, the working directory is exactly what it was
    /// before the command, success or failure.
    pub fn run(self, s: &mut Session) -> (r: Outcome)
        requires
            old(s).pending is Idle,
            old(s).stack@.len() == 0,
        ensures
            session_evolves(*old(s), *final(s)),
            (r is Done ==> machine_done(*final(s)) && final(s).base_path@ == old(s).base_path@),
            (r is Pending ==> !(final(s).pending is Idle) && final(s).stack@.len() == 0 && final(s).env@ == old(s).env@ && final(s).funcs@ == old(s).funcs@ && final(s).identities@
                == old(s).identities@ && final(s).canisters@ == old(s).canisters@ && final(s).output@ == old(s).output@ && final(s).base_path@ == old(s).base_path@),
            (r is More ==> final(s).pending is Idle),
            (self matches Command::Func { name, args, body } ==> (r matches Outcome::Done(res)
                && res is Ok) && final(s).funcs@ == old(s).funcs@.insert(
                name@,
                FuncDef { args, body },
            ) && final(s).env@ == old(s).env@ && final(s).output@ == old(s).output@),
            (self matches Command::Let(name, e) ==> (eval_model(e, old(s).env@)
                matches EvalModel::Val(m) ==> (r matches Outcome::Done(res) && res is Ok)
                && env_bound(old(s).env@, final(s).env@, name@, m) && final(s).output@ == old(s).output@)),
            (self matches Command::Show(e) ==> (eval_model(e, old(s).env@)
                matches EvalModel::Val(m) ==> (r matches Outcome::Done(res) && res is Ok)
                && env_bound(old(s).env@, final(s).env@, "_"@, m) && show_output(
                old(s).output@,
                final(s).output@,
                m,
                old(s).verbose,
            ))),
            (self matches Command::Assert(op, l, r2) ==> (eval_model(l, old(s).env@)
                matches EvalModel::Val(lm) ==> (eval_model(r2, old(s).env@)
                matches EvalModel::Val(rm) ==> (r matches Outcome::Done(res) && (res is Ok
                <==> assert_model(op, lm, rm)) && (res matches Err(e2) ==> (
            e2 matches Error::AssertionFailure(lv, rv) && lv@ == lm && rv@ == rm))) && final(s).env@ == old(s).env@ && final(s).output@ == old(s).output@))),
            (self matches Command::If { cond, then, else_ } ==> (eval_model(cond, old(s).env@)
                matches EvalModel::Val(m) ==> (!(m is Bool) ==> (r matches Outcome::Done(res) && (
            res matches Err(e2) && e2 is Type))))),
            (self matches Command::While { cond, body } ==> (eval_model(cond, old(s).env@)
                matches EvalModel::Val(m) ==> (!(m is Bool) ==> (r matches Outcome::Done(res) && (
            res matches Err(e2) && e2 is Type)) && final(s).env@ == old(s).env@ && final(s).funcs@ == old(s).funcs@ && final(s).identities@ == old(s).identities@ && final(s).output@ == old(s).output@) && ((m matches ValueModel::Bool(b) && !b) ==> (
            r matches Outcome::Done(res) && res is Ok) && final(s).env@ == old(s).env@ && final(s).funcs@ == old(s).funcs@ && final(s).output@ == old(s).output@))),
            (self matches Command::Load(e) ==> (eval_model(e, old(s).env@)
                matches EvalModel::Val(m) ==> (m matches ValueModel::Text(t) ==> (
            r matches Outcome::Pending(a) && (a matches Action::ReadFile { path } && path@
                == path_join(old(s).base_path@, strip_q(t))) && (final(s).pending
                matches Pending::AwaitFile { purpose, path: p2 } && (
            purpose matches FilePurpose::LoadScript { fail_safe } && fail_safe == is_failsafe(t))
                && p2@ == path_join(old(s).base_path@, strip_q(t))) && final(s).base_path@ == old(s).base_path@)) && (!(m is Text) ==> (r matches Outcome::Done(res) && (
            res matches Err(e2) && e2 is Type))))),
            (self matches Command::Identity(name, cfg) ==> (cfg is Empty ==> (
            r matches Outcome::Done(res) && res is Ok) && identity_installed(
                name@,
                old(s).env@,
                old(s).identities@,
                old(s).output@,
                *final(s),
            ))),
            (self matches Command::Identity(name, cfg) ==> (cfg is Empty
                && old(s).identities@.contains_key(name@) ==> final(s).identities@[name@].principal@
                == old(s).identities@[name@].principal@)),
            (self matches Command::Identity(name, cfg) ==> (cfg matches IdentityConfig::Pem(pp)
                ==> (r matches Outcome::Pending(a) && (a matches Action::ReadFile { path } && path@
                == path_join(old(s).base_path@, pp@))))),
            (self matches Command::Identity(name, cfg) ==> (cfg is Hsm ==> r is Pending)),
            (self matches Command::Import(name, principal, d) ==> (d is None ==> (
            r matches Outcome::Done(res) && res is Ok) && env_bound(
                old(s).env@,
                final(s).env@,
                name@,
                ValueModel::Principal(principal@),
            ))),
            (self matches Command::Import(name, principal, d) ==> (d matches Some(dp) ==> (
            r matches Outcome::Pending(a) && (a matches Action::ResolveInterface { path } && path@
                == path_join(old(s).base_path@, dp@))))),
            (self matches Command::Config(text) ==> (!ends_with_spec(text@, toml_suffix()) ==> ((
            r matches Outcome::Done(res) && res is Ok) <==> toml_ok(text@)) && (toml_ok(text@)
                ==> final(s).config is Some))),
    {
        match exec_command(self, s) {
            Flow::Go => {
                if s.stack.len() == 0 {
                    Outcome::Done(Ok(()))
                } else {
                    Outcome::More
                }
            },
            Flow::Suspend(a) => Outcome::Pending(a),
            Flow::Fail(e) => {
                let e2 = unwind(s, e);
                Outcome::Done(Err(e2))
            },
        }
    }
}

/// Continue a suspended run with the environment's answer to the pending
/// action. The same directory-restoration law holds: whenever the machine
/// reports `Done`, the working directory owed to the caller is restored.
pub fn resume(s: &mut Session, ev: Event) -> (r: Outcome)
    requires
        event_fits(old(s).pending, ev),
    ensures
        session_evolves(*old(s), *final(s)),
        (r is Done ==> machine_done(*final(s)) && final(s).base_path@ == outer_dir(*old(s))),
        (r is Pending ==> !(final(s).pending is Idle) && final(s).stack@ == old(s).stack@
            && final(s).env@ == old(s).env@ && final(s).funcs@ == old(s).funcs@ && final(s).output@ == old(s).output@),
        (r is More ==> final(s).pending is Idle),
        (old(s).pending matches Pending::AwaitFile { purpose, path } ==> (
        purpose matches FilePurpose::LoadScript { fail_safe } ==> (
        ev matches Event::FileRead(res) ==> (res is Err && fail_safe && old(s).stack@.len() == 0
            ==> (r matches Outcome::Done(d) && d is Ok) && final(s).env@ == old(s).env@ && final(s).base_path@ == old(s).base_path@ && final(s).output@ == old(s).output@ && final(s).funcs@
            == old(s).funcs@ && final(s).identities@ == old(s).identities@ && final(s).canisters@
            == old(s).canisters@ && final(s).config == old(s).config) && (res is Err && !fail_safe
            ==> (r matches Outcome::Done(d) && (
        d matches Err(e2) && (e2 matches Error::Io(p2) && p2@ == path@))) && final(s).env@ == old(s).env@ && final(s).funcs@ == old(s).funcs@ && final(s).output@ == old(s).output@ && final(s).canisters@ == old(s).canisters@) && (res is Ok ==> (r is Pending ==> (final(s).pending
            matches Pending::AwaitParse { dir, script } && dir@ == parent_of(path@)) && (
        r matches Outcome::Pending(a6) && (a6 matches Action::ParseScript { path: p6, text: t6 }
            && p6@ == path@))) && (r is Done ==> (r matches Outcome::Done(d7) && (
        d7 matches Err(e7) && e7 is Parse))))))),
        (old(s).pending matches Pending::AwaitCall { cont } ==> (
        ev matches Event::CallResult(res) ==> (res is Err ==> (r matches Outcome::Done(d) && (
        d matches Err(e2) && e2 is Eval))) && (res matches Ok(vc) ==> (
        cont matches Cont::LetC { name } ==> (old(s).stack@.len() == 0 ==> (
        r matches Outcome::Done(d) && d is Ok) && env_cost_bound(
            old(s).env@,
            final(s).env@,
            name@,
            vc.0@,
            vc.1,
        ))) && (cont is ShowC ==> (old(s).stack@.len() == 0 ==> (r matches Outcome::Done(d) && d
            is Ok) && env_cost_bound(old(s).env@, final(s).env@, "_"@, vc.0@, vc.1)
            && show_output(old(s).output@, final(s).output@, vc.0@, old(s).verbose)))))),
        (old(s).pending matches Pending::AwaitParse { dir, script } ==> (
        ev matches Event::Parsed(res) ==> (res is Err ==> (r matches Outcome::Done(d) && (
        d matches Err(e2) && e2 is Parse))) && (res is Ok ==> r is More && final(s).base_path@
            == dir@ && final(s).env@ == old(s).env@))),
        (old(s).pending matches Pending::AwaitFile { purpose, path } ==> (
        purpose matches FilePurpose::PemFile { name } ==> (ev matches Event::FileRead(res) ==> (
        res is Err ==> (r matches Outcome::Done(d) && (d matches Err(e3) && e3 is Identity)))))),
        (old(s).pending matches Pending::AwaitInterface { name, principal } ==> (
        ev matches Event::InterfaceResolved(res) ==> (res matches Ok(blob) ==> (old(s).stack@.len() == 0 ==> (r matches Outcome::Done(d) && d is Ok) && env_bound(
            old(s).env@,
            final(s).env@,
            name@,
            ValueModel::Principal(principal@),
        ) && final(s).canisters@.contains_key(principal@))))),
{
    let mut p = Pending::Idle;
    core::mem::swap(&mut p, &mut s.pending);
    match handle_event(s, p, ev) {
        Flow::Go => {
            if s.stack.len() == 0 {
                Outcome::Done(Ok(()))
            } else {
                Outcome::More
            }
        },
        Flow::Suspend(a) => Outcome::Pending(a),
        Flow::Fail(e) => {
            let e2 = unwind(s, e);
            Outcome::Done(Err(e2))
        },
    }
}

} // verus!
