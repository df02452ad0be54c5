//! The names and call shapes that the `remote` and `actor` attributes give
//! the code they generate: callback and registration names, caller names,
//! and how each actor method is reached.

use vstd::prelude::*;

verus! {

/// The lower-case form of a string that `str::to_lowercase` gives (Unicode
/// lower-casing).
pub uninterp spec fn lowercase(s: Seq<char>) -> Seq<char>;

/// Lower-cases a string with `str::to_lowercase`. The contract claims only
/// that the result is determined by the string (named `lowercase`); the
/// Unicode case tables are std's.
#[verifier::external_body]
fn to_lowercase(s: &str) -> (r: String)
    ensures
        r@ == lowercase(s@),
{
    s.to_lowercase()
}

/// The name of the callback of method `method` of actor type `actor_type`.
pub open spec fn callback_name_of(actor_type: Seq<char>, method: Seq<char>) -> Seq<char> {
    "__rayrust_member_"@ + lowercase(actor_type) + "_"@ + method
}

/// The name of the factory callback of actor type `actor_type`.
pub open spec fn factory_name_of(actor_type: Seq<char>) -> Seq<char> {
    "__rayrust_actor_factory_"@ + lowercase(actor_type)
}

/// The callback name of an actor method: `__rayrust_member_{type}_{method}`
/// with the type name in lower case.
pub fn callback_name(actor_type: &str, method_name: &str) -> (r: String)
    ensures
        r@ == callback_name_of(actor_type@, method_name@),
{
    String::from_str("__rayrust_member_").concat(to_lowercase(actor_type).as_str()).concat(
        "_",
    ).concat(method_name)
}

/// The factory callback name of an actor type:
/// `__rayrust_actor_factory_{type}` with the type name in lower case.
pub fn factory_name(actor_type: &str) -> (r: String)
    ensures
        r@ == factory_name_of(actor_type@),
{
    String::from_str("__rayrust_actor_factory_").concat(to_lowercase(actor_type).as_str())
}

/// ASCII upper-casing of one character; other characters stay.
pub open spec fn ascii_upper(c: char) -> char {
    if 'a' <= c && c <= 'z' {
        ((c as u32) - 32) as char
    } else {
        c
    }
}

/// ASCII upper-casing of a string.
pub open spec fn ascii_upper_text(s: Seq<char>) -> Seq<char> {
    s.map_values(|c: char| ascii_upper(c))
}

/// Upper-cases the ASCII letters of a type name; other characters stay.
pub fn type_name_upper(s: &str) -> (r: String)
    ensures
        r@ == ascii_upper_text(s@),
{
    let mut out = String::new();
    for c in it: s.chars()
        invariant
            it.seq() == s@,
            out@ == ascii_upper_text(s@.take(it.index() as int)),
    {
        let u = if 'a' <= c && c <= 'z' {
            ((c as u32 - 32) as u8) as char
        } else {
            c
        };
        crate::text::push_char(&mut out, u);
        assert(ascii_upper_text(s@.take(it.index() + 1)) =~= ascii_upper_text(
            s@.take(it.index() as int),
        ).push(u));
    }
    assert(s@.take(s@.len() as int) =~= s@);
    out
}

/// The items that the `remote` attribute generates for a function.
#[derive(Debug)]
pub struct RemoteNames {
    /// The synchronous submitter, `{name}_remote`.
    pub remote: String,
    /// The asynchronous submitter, `{name}_remote_async`.
    pub remote_async: String,
    /// The registration function, `{name}_register`.
    pub register: String,
    /// The C callback, `__rayrust_callback_{name}`.
    pub callback: String,
    /// The load-time constructor, `__RAYRUST_CTOR_{name}`.
    pub ctor: String,
    /// Whether the callback runs the function on the shared async runtime.
    pub blocks_on_async: bool,
}

/// The names of the items generated for the remote function `fn_name`,
/// which is `async` when `is_async` holds.
pub fn remote_names(fn_name: &str, is_async: bool) -> (r: RemoteNames)
    ensures
        r.remote@ == fn_name@ + "_remote"@,
        r.remote_async@ == fn_name@ + "_remote_async"@,
        r.register@ == fn_name@ + "_register"@,
        r.callback@ == "__rayrust_callback_"@ + fn_name@,
        r.ctor@ == "__RAYRUST_CTOR_"@ + fn_name@,
        r.blocks_on_async == is_async,
{
    RemoteNames {
        remote: String::from_str(fn_name).concat("_remote"),
        remote_async: String::from_str(fn_name).concat("_remote_async"),
        register: String::from_str(fn_name).concat("_register"),
        callback: String::from_str("__rayrust_callback_").concat(fn_name),
        ctor: String::from_str("__RAYRUST_CTOR_").concat(fn_name),
        blocks_on_async: is_async,
    }
}


/// How an actor method takes `self`.
#[derive(Debug, Clone, Copy, PartialEq, Eq, Structural)]
pub enum Receiver {
    /// `&mut self`
    MutRef,
    /// `&self`
    SharedRef,
    /// `self`
    Owned,
    /// no `self`
    NoSelf,
}

/// How the generated callback reaches an actor method.
#[derive(Debug, Clone, Copy, PartialEq, Eq, Structural)]
pub enum CallStyle {
    /// Through a mutable reference to the actor instance.
    ThroughMutPointer,
    /// Through a shared reference to the actor instance.
    ThroughPointer,
    /// As an associated function of the actor type.
    Associated,
}

/// The call style of a method with the given receiver: `&mut self` and
/// `&self` go through the instance, the others are called on the type.
pub open spec fn call_style_of(r: Receiver) -> CallStyle {
    match r {
        Receiver::MutRef => CallStyle::ThroughMutPointer,
        Receiver::SharedRef => CallStyle::ThroughPointer,
        _ => CallStyle::Associated,
    }
}

/// A method of an actor's `impl` block, as far as the generated code needs it.
#[derive(Debug)]
pub struct MethodSig {
    /// The method name.
    pub name: String,
    /// How the method takes `self`.
    pub receiver: Receiver,
}

/// The generated items of one actor method.
#[derive(Debug)]
pub struct MethodPlan {
    /// The method name.
    pub method: String,
    /// The member callback, `__rayrust_member_{type}_{method}`.
    pub callback: String,
    /// The name the callback is registered under, `{factory}::{method}`.
    pub registered_name: String,
    /// The asynchronous caller, `{type}_{method}`.
    pub caller: String,
    /// The synchronous caller, `{type}_{method}_sync`.
    pub caller_sync: String,
    /// How the callback reaches the method.
    pub call: CallStyle,
}

/// The generated items of an actor type.
#[derive(Debug)]
pub struct ActorPlan {
    /// The type name in lower case.
    pub lower_name: String,
    /// The factory callback, registered under its own name.
    pub factory: String,
    /// The registration function, `__register_{type}_actor`.
    pub register: String,
    /// The load-time constructor, `__RAYRUST_CTOR_ACTOR_{TYPE}`.
    pub ctor: String,
    /// The creation caller, `{type}_actor_create`.
    pub create_fn: String,
    /// One entry per method other than `new`, in declaration order.
    pub methods: Vec<MethodPlan>,
}

/// The methods that become actor methods: all but the constructor `new`, in
/// order.
pub open spec fn actor_methods(ms: Seq<MethodSig>) -> Seq<MethodSig>
    decreases ms.len(),
{
    if ms.len() == 0 {
        Seq::empty()
    } else if ms.last().name@ == "new"@ {
        actor_methods(ms.drop_last())
    } else {
        actor_methods(ms.drop_last()).push(ms.last())
    }
}

/// The methods that become actor methods are exactly those whose name is not
/// `new`, kept in their order: every other method, `new_round` or `renew`
/// alike, gets a plan.
pub proof fn lemma_actor_methods_skip_only_new(ms: Seq<MethodSig>)
    ensures
        actor_methods(ms) == ms.filter(|m: MethodSig| m.name@ != "new"@),
    decreases ms.len(),
{
    reveal(Seq::filter);
    if ms.len() > 0 {
        lemma_actor_methods_skip_only_new(ms.drop_last());
    }
}

/// `p` is the plan of method `m` of actor type `ty`.
pub open spec fn is_method_plan(p: MethodPlan, ty: Seq<char>, m: MethodSig) -> bool {
    &&& p.method@ == m.name@
    &&& p.callback@ == callback_name_of(ty, m.name@)
    &&& p.registered_name@ == factory_name_of(ty) + "::"@ + m.name@
    &&& p.caller@ == lowercase(ty) + "_"@ + m.name@
    &&& p.caller_sync@ == lowercase(ty) + "_"@ + m.name@ + "_sync"@
    &&& p.call == call_style_of(m.receiver)
}

fn method_plan(actor_type: &str, lower: &str, factory: &str, m: &MethodSig) -> (p: MethodPlan)
    requires
        lower@ == lowercase(actor_type@),
        factory@ == factory_name_of(actor_type@),
    ensures
        is_method_plan(p, actor_type@, *m),
{
    let name = m.name.as_str();
    let call = match m.receiver {
        Receiver::MutRef => CallStyle::ThroughMutPointer,
        Receiver::SharedRef => CallStyle::ThroughPointer,
        _ => CallStyle::Associated,
    };
    MethodPlan {
        method: String::from_str(name),
        callback: callback_name(actor_type, name),
        registered_name: String::from_str(factory).concat("::").concat(name),
        caller: String::from_str(lower).concat("_").concat(name),
        caller_sync: String::from_str(lower).concat("_").concat(name).concat("_sync"),
        call,
    }
}

/// Plans the items generated for the actor type `actor_type` whose `impl`
/// block has the given methods; the block must have a constructor `new`.
pub fn plan_actor(actor_type: &str, methods: &[MethodSig]) -> (r: ActorPlan)
    requires
        exists|i: int| 0 <= i < methods@.len() && #[trigger] methods@[i].name@ == "new"@,
    ensures
        r.lower_name@ == lowercase(actor_type@),
        r.factory@ == factory_name_of(actor_type@),
        r.register@ == "__register_"@ + lowercase(actor_type@) + "_actor"@,
        r.ctor@ == "__RAYRUST_CTOR_ACTOR_"@ + ascii_upper_text(actor_type@),
        r.create_fn@ == lowercase(actor_type@) + "_actor_create"@,
        r.methods@.len() == actor_methods(methods@).len(),
        forall|i: int|
            0 <= i < r.methods@.len() ==> is_method_plan(
                #[trigger] r.methods@[i],
                actor_type@,
                actor_methods(methods@)[i],
            ),
        r.methods@.len() == methods@.filter(|m: MethodSig| m.name@ != "new"@).len(),
        forall|i: int|
            0 <= i < r.methods@.len() ==> is_method_plan(
                #[trigger] r.methods@[i],
                actor_type@,
                methods@.filter(|m: MethodSig| m.name@ != "new"@)[i],
            ),
{
    let lower = to_lowercase(actor_type);
    let factory = factory_name(actor_type);
    let new_name = String::from_str("new");
    let mut plans: Vec<MethodPlan> = Vec::new();
    let mut i: usize = 0;
    while i < methods.len()
        invariant
            i <= methods@.len(),
            lower@ == lowercase(actor_type@),
            factory@ == factory_name_of(actor_type@),
            new_name@ == "new"@,
            plans@.len() == actor_methods(methods@.take(i as int)).len(),
            forall|k: int|
                0 <= k < plans@.len() ==> is_method_plan(
                    #[trigger] plans@[k],
                    actor_type@,
                    actor_methods(methods@.take(i as int))[k],
                ),
        decreases methods.len() - i,
    {
        let ghost prefix = methods@.take(i + 1);
        assert(prefix.drop_last() =~= methods@.take(i as int));
        assert(prefix.last() == methods@[i as int]);
        if !methods[i].name.eq(&new_name) {
            let p = method_plan(actor_type, lower.as_str(), factory.as_str(), &methods[i]);
            plans.push(p);
        }
        i = i + 1;
    }
    assert(methods@.take(i as int) =~= methods@);
    proof {
        lemma_actor_methods_skip_only_new(methods@);
    }
    ActorPlan {
        register: String::from_str("__register_").concat(lower.as_str()).concat("_actor"),
        ctor: String::from_str("__RAYRUST_CTOR_ACTOR_").concat(type_name_upper(actor_type).as_str()),
        create_fn: String::from_str(lower.as_str()).concat("_actor_create"),
        lower_name: lower,
        factory,
        methods: plans,
    }
}

} // verus!
