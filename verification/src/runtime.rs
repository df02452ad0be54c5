//! The Ray runtime context and the requests and replies of its operations.
//!
//! Each operation of the runtime is one call across Ray's C interface. The
//! library decides what goes into the call (the request) and what its reply
//! means (a value or an error); the call itself is made by the embedding
//! program, which hands back the reply: the bytes the C side returned (`None`
//! for a null result), and the C side's last error text where it matters.

use vstd::prelude::*;
use vstd::slice::slice_to_vec;
use vstd::utf8::{decode_utf8, valid_utf8};

use crate::error::{ffi_detail_message, ffi_error, ffi_error_detail, ffi_message, RayError};
use crate::object_ref::ObjectRef;
use crate::options::{actor_options_json, resources_json_text, ActorOptions, TaskOptions};
use crate::serialize::{payload_of, xlang_payload};
use crate::text::{c_text, c_text_of, decimal, push_decimal_i64, push_decimal_u64, decimal_digits};

verus! {

/// A handle to a remote actor.
#[derive(Debug)]
pub struct ActorHandle {
    id: Vec<u8>,
}

impl View for ActorHandle {
    /// The actor's binary ID.
    type V = Seq<u8>;

    closed spec fn view(&self) -> Seq<u8> {
        self.id@
    }
}

impl Clone for ActorHandle {
    /// A second handle to the same actor.
    fn clone(&self) -> (r: Self)
        ensures
            r@ == self@,
    {
        ActorHandle { id: slice_to_vec(self.id.as_slice()) }
    }
}

impl ActorHandle {
    /// The handle of the actor with binary ID `id`.
    pub fn from_id(id: Vec<u8>) -> (r: Self)
        ensures
            r@ == id@,
    {
        ActorHandle { id }
    }

    /// The actor's ID as raw bytes.
    pub fn id(&self) -> (r: &[u8])
        ensures
            r@ == self@,
    {
        self.id.as_slice()
    }
}

/// The Ray runtime context: its existence witnesses a successful `init`.
/// The operations below interpret the replies of the calls made under it.
pub struct Ray {
    _priv: (),
}

/// The C side's error text, or the empty string when it left none.
pub open spec fn text_or_empty(last_error: Option<String>) -> Seq<char> {
    match last_error {
        Some(m) => m@,
        None => Seq::empty(),
    }
}

/// The message of a failed `init`.
pub open spec fn init_failure_message(status: i32, last_error: Option<String>) -> Seq<char> {
    "ray_init failed (code "@ + decimal(status as int) + "): "@ + text_or_empty(last_error)
}

/// The message of a failed cancellation.
pub open spec fn cancel_failure_message(status: i32) -> Seq<char> {
    "ray_cancel failed (code "@ + decimal(status as int) + ")"@
}

/// The message of an object that the store did not return.
pub open spec fn not_found_message(id_len: nat) -> Seq<char> {
    "<"@ + decimal_digits(id_len) + " bytes>"@
}

/// The message of the `i`-th object of a batch that the store did not return.
pub open spec fn batch_not_found_message(i: nat) -> Seq<char> {
    "object "@ + decimal_digits(i) + " not found"@
}

/// A C-side error text that reports a failure: present and not empty.
pub open spec fn reports_error(last_error: Option<String>) -> bool {
    last_error matches Some(m) && m@.len() > 0
}

fn text_or_empty_exec(last_error: Option<String>) -> (r: String)
    ensures
        r@ == text_or_empty(last_error),
{
    match last_error {
        Some(m) => m,
        None => String::new(),
    }
}

fn is_reported(last_error: &Option<String>) -> (r: bool)
    ensures
        r == reports_error(*last_error),
{
    match last_error {
        Some(m) => !m.as_str().is_empty(),
        None => false,
    }
}

impl Ray {
    /// Completes a connection: the runtime's `init` call returned `status`
    /// (0 on success) and left `last_error`. On success the context exists
    /// and the runtime is shut down when the embedding program drops it.
    pub fn connect(status: i32, last_error: Option<String>) -> (r: Result<Ray, RayError>)
        ensures
            r is Ok <==> status == 0,
            r matches Err(e) ==> e matches RayError::Runtime(m) && m@ == init_failure_message(
                status,
                last_error,
            ),
    {
        if status != 0 {
            let mut m = String::from_str("ray_init failed (code ");
            push_decimal_i64(&mut m, status as i64);
            let m = m.concat("): ").concat(text_or_empty_exec(last_error).as_str());
            return Err(RayError::Runtime(m));
        }
        Ok(Ray { _priv: () })
    }

    /// Interprets the reply to a task call submitted with `task_call_request`
    /// for `func_name` and `opts`: the reply is the ID of the result object.
    /// The error names the C function that was called, which depends on
    /// whether resources were requested.
    pub fn task_call(
        func_name: &str,
        opts: &TaskOptions,
        reply: Option<Vec<u8>>,
        last_error: Option<String>,
    ) -> (r: Result<ObjectRef<()>, RayError>)
        ensures
            match reply {
                Some(id) => r matches Ok(o) && o@ == (id@, false),
                None => r matches Err(RayError::Ffi(m)) && m@ == ffi_detail_message(
                    if opts.resources@.len() > 0 {
                        "ray_task_call_with_resources"@
                    } else {
                        "ray_task_call"@
                    },
                    func_name@,
                    last_error,
                ),
            },
    {
        match reply {
            Some(id) => Ok(ObjectRef::from_id(id)),
            None => {
                let context = if opts.has_resources() {
                    "ray_task_call_with_resources"
                } else {
                    "ray_task_call"
                };
                Err(ffi_error_detail(context, func_name, last_error))
            },
        }
    }

    /// Interprets the reply to a Python task call of `module.function`: the
    /// result object is a cross-language one.
    pub fn task_call_python(
        module: &str,
        function: &str,
        reply: Option<Vec<u8>>,
        last_error: Option<String>,
    ) -> (r: Result<ObjectRef<()>, RayError>)
        ensures
            match reply {
                Some(id) => r matches Ok(o) && o@ == (id@, true),
                None => r matches Err(RayError::Ffi(m)) && m@ == ffi_detail_message(
                    "ray_task_call_python"@,
                    module@ + "."@ + function@,
                    last_error,
                ),
            },
    {
        match reply {
            Some(id) => Ok(ObjectRef::from_id_xlang(id)),
            None => {
                let detail = String::from_str(module).concat(".").concat(function);
                Err(ffi_error_detail("ray_task_call_python", detail.as_str(), last_error))
            },
        }
    }

    /// Interprets the reply to the creation of an actor from the factory
    /// `func_name`: the reply is the actor's ID.
    pub fn actor_create(
        func_name: &str,
        reply: Option<Vec<u8>>,
        last_error: Option<String>,
    ) -> (r: Result<ActorHandle, RayError>)
        ensures
            match reply {
                Some(id) => r matches Ok(h) && h@ == id@,
                None => r matches Err(RayError::Ffi(m)) && m@ == ffi_detail_message(
                    "ray_actor_create_with_options"@,
                    func_name@,
                    last_error,
                ),
            },
    {
        match reply {
            Some(id) => Ok(ActorHandle::from_id(id)),
            None => Err(ffi_error_detail("ray_actor_create_with_options", func_name, last_error)),
        }
    }

    /// Interprets the reply to the creation of a Python actor of
    /// `module.class`: the reply is the actor's ID.
    pub fn actor_create_python(
        module: &str,
        class: &str,
        reply: Option<Vec<u8>>,
        last_error: Option<String>,
    ) -> (r: Result<ActorHandle, RayError>)
        ensures
            match reply {
                Some(id) => r matches Ok(h) && h@ == id@,
                None => r matches Err(RayError::Ffi(m)) && m@ == ffi_detail_message(
                    "ray_actor_create_python_with_options"@,
                    module@ + "."@ + class@,
                    last_error,
                ),
            },
    {
        match reply {
            Some(id) => Ok(ActorHandle::from_id(id)),
            None => {
                let detail = String::from_str(module).concat(".").concat(class);
                Err(
                    ffi_error_detail(
                        "ray_actor_create_python_with_options",
                        detail.as_str(),
                        last_error,
                    ),
                )
            },
        }
    }

    /// Interprets the reply to a call of the actor method `func_name`: the
    /// reply is the ID of the result object.
    pub fn actor_call(
        func_name: &str,
        reply: Option<Vec<u8>>,
        last_error: Option<String>,
    ) -> (r: Result<ObjectRef<()>, RayError>)
        ensures
            match reply {
                Some(id) => r matches Ok(o) && o@ == (id@, false),
                None => r matches Err(RayError::Ffi(m)) && m@ == ffi_detail_message(
                    "ray_actor_call"@,
                    func_name@,
                    last_error,
                ),
            },
    {
        match reply {
            Some(id) => Ok(ObjectRef::from_id(id)),
            None => Err(ffi_error_detail("ray_actor_call", func_name, last_error)),
        }
    }

    /// Interprets the reply to a call of the Python actor method
    /// `method_name`: the result object is a cross-language one.
    pub fn actor_call_python(
        method_name: &str,
        reply: Option<Vec<u8>>,
        last_error: Option<String>,
    ) -> (r: Result<ObjectRef<()>, RayError>)
        ensures
            match reply {
                Some(id) => r matches Ok(o) && o@ == (id@, true),
                None => r matches Err(RayError::Ffi(m)) && m@ == ffi_detail_message(
                    "ray_actor_call_python"@,
                    method_name@,
                    last_error,
                ),
            },
    {
        match reply {
            Some(id) => Ok(ObjectRef::from_id_xlang(id)),
            None => Err(ffi_error_detail("ray_actor_call_python", method_name, last_error)),
        }
    }

    /// Interprets the outcome of killing an actor. The kill call returns
    /// nothing; the error text it leaves (cleared before the call) tells a
    /// failure: a non-empty text is an error.
    pub fn kill_actor(last_error: Option<String>) -> (r: Result<(), RayError>)
        ensures
            r is Ok <==> !reports_error(last_error),
            r matches Err(e) ==> e matches RayError::Ffi(m) && m@ == "ray_actor_kill: "@
                + text_or_empty(last_error),
    {
        if is_reported(&last_error) {
            let m = String::from_str("ray_actor_kill: ").concat(
                text_or_empty_exec(last_error).as_str(),
            );
            return Err(RayError::Ffi(m));
        }
        Ok(())
    }

    /// Interprets the reply to the creation of a placement group: the reply
    /// is the group's binary ID.
    pub fn placement_group_create(reply: Option<Vec<u8>>, last_error: Option<String>) -> (r:
        Result<Vec<u8>, RayError>)
        ensures
            match reply {
                Some(id) => r matches Ok(g) && g@ == id@,
                None => r matches Err(RayError::Ffi(m)) && m@ == ffi_message(
                    "ray_placement_group_create"@,
                    last_error,
                ),
            },
    {
        match reply {
            Some(id) => Ok(id),
            None => Err(ffi_error("ray_placement_group_create", last_error)),
        }
    }

    /// Interprets the namespace query. When the runtime is not initialized no
    /// query is made and the namespace is empty; otherwise the reply is the
    /// namespace in UTF-8.
    pub fn namespace(initialized: bool, reply: Option<Vec<u8>>, last_error: Option<String>) -> (r:
        Result<String, RayError>)
        ensures
            !initialized ==> (r matches Ok(s) && s@.len() == 0),
            initialized ==> match reply {
                Some(b) => if valid_utf8(b@) {
                    r matches Ok(s) && s@ == decode_utf8(b@)
                } else {
                    r matches Err(RayError::Ffi(m)) && m@ == "namespace not valid UTF-8: "@
                        + utf8_error_text(b@)
                },
                None => r matches Err(RayError::Ffi(m)) && m@ == ffi_message(
                    "ray_get_namespace"@,
                    last_error,
                ),
            },
    {
        if !initialized {
            return Ok(String::new());
        }
        match reply {
            None => Err(ffi_error("ray_get_namespace", last_error)),
            Some(b) => match string_from_utf8(b) {
                Ok(s) => Ok(s),
                Err(text) => {
                    let m = String::from_str("namespace not valid UTF-8: ").concat(text.as_str());
                    Err(RayError::Ffi(m))
                },
            },
        }
    }

    /// Interprets the reply to a named-actor lookup. The C side returns null
    /// both when the actor is not found and on failure; the error text
    /// (cleared before the call) tells them apart. An empty ID also means not
    /// found.
    pub fn get_actor(reply: Option<Vec<u8>>, last_error: Option<String>) -> (r: Result<
        Option<ActorHandle>,
        RayError,
    >)
        ensures
            match reply {
                Some(id) => if id@.len() == 0 {
                    r matches Ok(None)
                } else {
                    r matches Ok(Some(h)) && h@ == id@
                },
                None => if reports_error(last_error) {
                    r matches Err(RayError::Ffi(m)) && m@ == "ray_get_actor: "@ + text_or_empty(
                        last_error,
                    )
                } else {
                    r matches Ok(None)
                },
            },
    {
        match reply {
            Some(id) => {
                if id.len() == 0 {
                    Ok(None)
                } else {
                    Ok(Some(ActorHandle::from_id(id)))
                }
            },
            None => {
                if is_reported(&last_error) {
                    let m = String::from_str("ray_get_actor: ").concat(
                        text_or_empty_exec(last_error).as_str(),
                    );
                    Err(RayError::Ffi(m))
                } else {
                    Ok(None)
                }
            },
        }
    }

    /// Interprets the status of a task cancellation (0 on success).
    pub fn cancel(status: i32) -> (r: Result<(), RayError>)
        ensures
            r is Ok <==> status == 0,
            r matches Err(e) ==> e matches RayError::Runtime(m) && m@ == cancel_failure_message(
                status,
            ),
    {
        if status != 0 {
            let mut m = String::from_str("ray_cancel failed (code ");
            push_decimal_i64(&mut m, status as i64);
            let m = m.concat(")");
            return Err(RayError::Runtime(m));
        }
        Ok(())
    }
}

/// What goes into a task call, besides the argument bytes themselves.
#[derive(Debug)]
pub struct TaskCallRequest {
    /// The function name, as its C string carries it.
    pub func_name: String,
    /// Whether the by-reference flags are passed (a null pointer otherwise).
    pub pass_is_ref: bool,
    /// The resources JSON, when resources are requested; the call then goes
    /// to the resource-aware C function.
    pub resources_json: Option<String>,
}

/// The request of a task call of `func_name` with by-reference flags `is_ref`
/// (`is_ref[i]` marks `args[i]` as an object ID) and options `opts`.
pub fn task_call_request(func_name: &str, is_ref: &[bool], opts: &TaskOptions) -> (r:
    TaskCallRequest)
    ensures
        r.func_name@ == c_text_of(func_name@),
        r.pass_is_ref == (is_ref@.len() > 0),
        if opts.resources@.len() > 0 {
            r.resources_json matches Some(j) && j@ == c_text_of(resources_json_text(opts.resources@))
        } else {
            r.resources_json is None
        },
{
    let resources_json = if opts.has_resources() {
        Some(c_text(opts.resources_json().as_str()))
    } else {
        None
    };
    TaskCallRequest {
        func_name: c_text(func_name),
        pass_is_ref: is_ref.len() > 0,
        resources_json,
    }
}

/// What goes into a call of Python code (a task function or an actor
/// method), besides the argument bytes themselves.
#[derive(Debug)]
pub struct PythonCallRequest {
    /// The module name, as its C string carries it (empty for an actor method).
    pub module: String,
    /// The function or method name, as its C string carries it.
    pub function: String,
    /// Whether the by-reference flags are passed (a null pointer otherwise).
    pub pass_is_ref: bool,
}

/// The request of a call of the Python function `module.function`.
pub fn task_call_python_request(module: &str, function: &str, is_ref: &[bool]) -> (r:
    PythonCallRequest)
    ensures
        r.module@ == c_text_of(module@),
        r.function@ == c_text_of(function@),
        r.pass_is_ref == (is_ref@.len() > 0),
{
    PythonCallRequest {
        module: c_text(module),
        function: c_text(function),
        pass_is_ref: is_ref.len() > 0,
    }
}

/// The request of a call of the Python actor method `method_name`.
pub fn actor_call_python_request(method_name: &str, is_ref: &[bool]) -> (r: PythonCallRequest)
    ensures
        r.module@.len() == 0,
        r.function@ == c_text_of(method_name@),
        r.pass_is_ref == (is_ref@.len() > 0),
{
    PythonCallRequest {
        module: String::new(),
        function: c_text(method_name),
        pass_is_ref: is_ref.len() > 0,
    }
}

/// What goes into an actor creation, besides the argument bytes themselves.
#[derive(Debug)]
pub struct ActorCreateRequest {
    /// The module name, as its C string carries it (empty for a Rust actor).
    pub module: String,
    /// The factory function (Rust) or class (Python), as its C string carries it.
    pub name: String,
    /// The options JSON, or `None` (a null pointer) when every option is at
    /// its default.
    pub options_json: Option<String>,
}

/// `v` carries the text `t`, or is `None` when `t` is empty (a null pointer
/// at the C interface).
pub open spec fn text_or_none(v: Option<String>, t: Seq<char>) -> bool {
    if t.len() == 0 {
        v is None
    } else {
        v matches Some(j) && j@ == t
    }
}

fn options_json_arg(opts: &ActorOptions) -> (r: Option<String>)
    ensures
        text_or_none(r, c_text_of(actor_options_json(*opts))),
{
    let json = c_text(opts.to_json().as_str());
    if json.as_str().is_empty() {
        None
    } else {
        Some(json)
    }
}

/// The request of the creation of an actor by the Rust factory `func_name`.
pub fn actor_create_request(func_name: &str, opts: &ActorOptions) -> (r: ActorCreateRequest)
    ensures
        r.module@.len() == 0,
        r.name@ == c_text_of(func_name@),
        text_or_none(r.options_json, c_text_of(actor_options_json(*opts))),
{
    ActorCreateRequest {
        module: String::new(),
        name: c_text(func_name),
        options_json: options_json_arg(opts),
    }
}

/// The request of the creation of a Python actor of `module.class`.
pub fn actor_create_python_request(module: &str, class: &str, opts: &ActorOptions) -> (r:
    ActorCreateRequest)
    ensures
        r.module@ == c_text_of(module@),
        r.name@ == c_text_of(class@),
        text_or_none(r.options_json, c_text_of(actor_options_json(*opts))),
{
    ActorCreateRequest {
        module: c_text(module),
        name: c_text(class),
        options_json: options_json_arg(opts),
    }
}

/// Interprets the reply to storing an object: the reply is the object's
/// binary ID.
pub fn put_raw(reply: Option<Vec<u8>>, last_error: Option<String>) -> (r: Result<
    Vec<u8>,
    RayError,
>)
    ensures
        match reply {
            Some(id) => r matches Ok(i) && i@ == id@,
            None => r matches Err(RayError::Ffi(m)) && m@ == ffi_message("ray_put"@, last_error),
        },
{
    match reply {
        Some(id) => Ok(id),
        None => Err(ffi_error("ray_put", last_error)),
    }
}

/// Interprets the reply to reading the object with binary ID `id`: the
/// reply is the object's bytes.
pub fn get_raw(id: &[u8], reply: Option<Vec<u8>>) -> (r: Result<Vec<u8>, RayError>)
    ensures
        match reply {
            Some(b) => r matches Ok(d) && d@ == b@,
            None => r matches Err(RayError::ObjectNotFound(m)) && m@ == not_found_message(
                id@.len(),
            ),
        },
{
    match reply {
        Some(b) => Ok(b),
        None => {
            let mut m = String::from_str("<");
            push_decimal_u64(&mut m, id.len() as u64);
            let m = m.concat(" bytes>");
            Err(RayError::ObjectNotFound(m))
        },
    }
}

/// The bytes to decode of an object read through `r`: for a cross-language
/// object, the msgpack payload (the XLANG header stripped when present);
/// otherwise the bytes as read.
pub open spec fn read_payload_of<T>(r: ObjectRef<T>, bytes: Seq<u8>) -> Seq<u8> {
    if r@.1 {
        payload_of(bytes)
    } else {
        bytes
    }
}

/// Selects the bytes to decode of an object read through `r`: strips the
/// XLANG header of a cross-language object's bytes when present, and keeps
/// other objects' bytes as they are.
pub fn read_payload<T>(r: &ObjectRef<T>, bytes: Vec<u8>) -> (p: Vec<u8>)
    ensures
        p@ == read_payload_of(*r, bytes@),
{
    if r.is_xlang() {
        slice_to_vec(xlang_payload(bytes.as_slice()))
    } else {
        bytes
    }
}

/// The references whose readiness flag equals `want`, in their order.
pub open spec fn refs_with_flag<T>(refs: Seq<ObjectRef<T>>, ready: Seq<bool>, want: bool) -> Seq<
    (Seq<u8>, bool),
>
    decreases refs.len(),
{
    if refs.len() == 0 {
        Seq::empty()
    } else {
        let rest = refs_with_flag(refs.drop_last(), ready, want);
        if ready[refs.len() - 1] == want {
            rest.push(refs.last()@)
        } else {
            rest
        }
    }
}

/// How many of the flags equal `want`.
pub open spec fn flag_count(flags: Seq<bool>, want: bool) -> nat
    decreases flags.len(),
{
    if flags.len() == 0 {
        0
    } else {
        flag_count(flags.drop_last(), want) + if flags.last() == want {
            1nat
        } else {
            0nat
        }
    }
}

/// The views of a list of references.
pub open spec fn ref_views<T>(refs: Seq<ObjectRef<T>>) -> Seq<(Seq<u8>, bool)> {
    refs.map_values(|r: ObjectRef<T>| r@)
}

/// Every reference goes to exactly one side of a wait: the ready and the
/// not-ready lists together are as long as the list of references.
pub proof fn lemma_wait_partition<T>(refs: Seq<ObjectRef<T>>, ready: Seq<bool>)
    requires
        ready.len() == refs.len(),
    ensures
        refs_with_flag(refs, ready, true).len() + refs_with_flag(refs, ready, false).len()
            == refs.len(),
{
    lemma_flag_split_len(refs, ready);
}

proof fn lemma_flag_split_len<T>(refs: Seq<ObjectRef<T>>, ready: Seq<bool>)
    ensures
        refs_with_flag(refs, ready, true).len() + refs_with_flag(refs, ready, false).len()
            == refs.len(),
    decreases refs.len(),
{
    if refs.len() > 0 {
        lemma_flag_split_len(refs.drop_last(), ready);
    }
}

/// Where a wait puts each reference: the reference at index `i` goes to the
/// list that its own flag `flags[i]` selects, at the position given by the
/// number of earlier references with the same flag (so each list keeps the
/// order of `refs`), and each list is exactly as long as the number of flags
/// that select it.
pub proof fn lemma_wait_places<T>(refs: Seq<ObjectRef<T>>, flags: Seq<bool>, want: bool)
    requires
        flags.len() == refs.len(),
    ensures
        refs_with_flag(refs, flags, want).len() == flag_count(flags, want),
        forall|i: int|
            #![trigger flag_count(flags.take(i), want)]
            0 <= i < refs.len() && flags[i] == want ==> flag_count(flags.take(i), want)
                < refs_with_flag(refs, flags, want).len() && refs_with_flag(refs, flags, want)[flag_count(
                flags.take(i),
                want,
            ) as int] == refs[i]@,
{
    lemma_flag_places(refs, flags, want);
    assert(flags.take(refs.len() as int) =~= flags);
}

proof fn lemma_flag_places<T>(refs: Seq<ObjectRef<T>>, flags: Seq<bool>, want: bool)
    requires
        refs.len() <= flags.len(),
    ensures
        refs_with_flag(refs, flags, want).len() == flag_count(flags.take(refs.len() as int), want),
        forall|i: int|
            #![trigger flag_count(flags.take(i), want)]
            0 <= i < refs.len() && flags[i] == want ==> flag_count(flags.take(i), want)
                < refs_with_flag(refs, flags, want).len() && refs_with_flag(refs, flags, want)[flag_count(
                flags.take(i),
                want,
            ) as int] == refs[i]@,
    decreases refs.len(),
{
    let n = refs.len() as int;
    if n == 0 {
        assert(flags.take(0) =~= Seq::<bool>::empty());
    } else {
        let front = refs.drop_last();
        lemma_flag_places(front, flags, want);
        assert(flags.take(n).drop_last() =~= flags.take(n - 1));
        assert(flags.take(n).last() == flags[n - 1]);
        let all = refs_with_flag(refs, flags, want);
        assert forall|i: int| 0 <= i < n && flags[i] == want implies flag_count(flags.take(i), want)
            < all.len() && all[flag_count(flags.take(i), want) as int] == refs[i]@ by {
            if i < n - 1 {
                assert(front[i] == refs[i]);
            } else {
                assert(flags.take(i) =~= flags.take(n - 1));
            }
        }
    }
}

impl Ray {
    /// Interprets the reply to waiting for objects: one readiness flag per
    /// reference (null on failure). The references are split into the ready
    /// and the not-ready ones, each list keeping the order of `object_refs`.
    pub fn wait<T>(
        object_refs: &[ObjectRef<T>],
        reply: Option<Vec<bool>>,
        last_error: Option<String>,
    ) -> (r: Result<(Vec<ObjectRef<T>>, Vec<ObjectRef<T>>), RayError>)
        requires
            reply matches Some(flags) ==> flags@.len() == object_refs@.len(),
        ensures
            match reply {
                Some(flags) => r matches Ok((ready, unready)) && ref_views(ready@)
                    == refs_with_flag(object_refs@, flags@, true) && ref_views(unready@)
                    == refs_with_flag(object_refs@, flags@, false) && ready@.len() == flag_count(
                    flags@,
                    true,
                ) && unready@.len() == flag_count(flags@, false) && forall|i: int|
                    #![trigger object_refs@[i]]
                    0 <= i < object_refs@.len() ==> if flags@[i] {
                        flag_count(flags@.take(i), true) < ready@.len() && ready@[flag_count(
                            flags@.take(i),
                            true,
                        ) as int]@ == object_refs@[i]@
                    } else {
                        flag_count(flags@.take(i), false) < unready@.len() && unready@[flag_count(
                            flags@.take(i),
                            false,
                        ) as int]@ == object_refs@[i]@
                    },
                None => r matches Err(RayError::Ffi(m)) && m@ == ffi_message(
                    "ray_wait"@,
                    last_error,
                ),
            },
    {
        let flags = match reply {
            Some(f) => f,
            None => return Err(ffi_error("ray_wait", last_error)),
        };
        let mut ready: Vec<ObjectRef<T>> = Vec::new();
        let mut unready: Vec<ObjectRef<T>> = Vec::new();
        let mut i: usize = 0;
        while i < object_refs.len()
            invariant
                i <= object_refs@.len(),
                flags@.len() == object_refs@.len(),
                ref_views(ready@) == refs_with_flag(object_refs@.take(i as int), flags@, true),
                ref_views(unready@) == refs_with_flag(object_refs@.take(i as int), flags@, false),
            decreases object_refs.len() - i,
        {
            let ghost prefix = object_refs@.take(i + 1);
            assert(prefix.drop_last() =~= object_refs@.take(i as int));
            let copy = object_refs[i].clone();
            let ghost cv = copy@;
            let ghost before_ready = ready@;
            let ghost before_unready = unready@;
            if flags[i] {
                ready.push(copy);
                assert(ref_views(ready@) =~= ref_views(before_ready).push(cv));
            } else {
                unready.push(copy);
                assert(ref_views(unready@) =~= ref_views(before_unready).push(cv));
            }
            i = i + 1;
        }
        assert(object_refs@.take(i as int) =~= object_refs@);
        proof {
            lemma_wait_places(object_refs@, flags@, true);
            lemma_wait_places(object_refs@, flags@, false);
            assert forall|i: int| 0 <= i < object_refs@.len() implies if flags@[i] {
                flag_count(flags@.take(i), true) < ready@.len() && ready@[flag_count(
                    flags@.take(i),
                    true,
                ) as int]@ == object_refs@[i]@
            } else {
                flag_count(flags@.take(i), false) < unready@.len() && unready@[flag_count(
                    flags@.take(i),
                    false,
                ) as int]@ == object_refs@[i]@
            } by {
                let k = flag_count(flags@.take(i), flags@[i]) as int;
                if flags@[i] {
                    assert(ref_views(ready@)[k] == ready@[k]@);
                } else {
                    assert(ref_views(unready@)[k] == unready@[k]@);
                }
            }
        }
        Ok((ready, unready))
    }

    /// Interprets the reply to a batch read: one entry per reference (null
    /// for an object the store did not return), or null on failure. Each
    /// entry becomes the bytes to decode (for a cross-language object, its
    /// msgpack payload), or the error for a missing object; the caller
    /// decodes them in order and stops at the first error.
    pub fn get_many_payloads<T>(
        refs: &[ObjectRef<T>],
        reply: Option<Vec<Option<Vec<u8>>>>,
        last_error: Option<String>,
    ) -> (r: Result<Vec<Result<Vec<u8>, RayError>>, RayError>)
        requires
            reply matches Some(items) ==> items@.len() == refs@.len(),
        ensures
            match reply {
                Some(items) => r matches Ok(out) && out@.len() == refs@.len() && forall|i: int|
                    0 <= i < refs@.len() ==> match #[trigger] items@[i] {
                        Some(b) => out@[i] matches Ok(p) && p@ == read_payload_of(refs@[i], b@),
                        None => out@[i] matches Err(RayError::ObjectNotFound(m)) && m@
                            == batch_not_found_message(i as nat),
                    },
                None => r matches Err(RayError::Ffi(m)) && m@ == ffi_message(
                    "ray_get_many"@,
                    last_error,
                ),
            },
    {
        let items = match reply {
            Some(v) => v,
            None => return Err(ffi_error("ray_get_many", last_error)),
        };
        let mut out: Vec<Result<Vec<u8>, RayError>> = Vec::new();
        let mut i: usize = 0;
        while i < refs.len()
            invariant
                i <= refs@.len(),
                items@.len() == refs@.len(),
                out@.len() == i,
                forall|k: int|
                    0 <= k < i ==> match #[trigger] items@[k] {
                        Some(b) => out@[k] matches Ok(p) && p@ == read_payload_of(refs@[k], b@),
                        None => out@[k] matches Err(RayError::ObjectNotFound(m)) && m@
                            == batch_not_found_message(k as nat),
                    },
            decreases refs.len() - i,
        {
            let entry = match &items[i] {
                Some(b) => Ok(read_payload(&refs[i], slice_to_vec(b.as_slice()))),
                None => {
                    let mut m = String::from_str("object ");
                    push_decimal_u64(&mut m, i as u64);
                    let m = m.concat(" not found");
                    Err(RayError::ObjectNotFound(m))
                },
            };
            out.push(entry);
            i = i + 1;
        }
        Ok(out)
    }
}

/// The text (`Display`) of the error `String::from_utf8` reports for the
/// bytes (which position the invalid sequence starts at, and how long it is).
pub uninterp spec fn utf8_error_text(bytes: Seq<u8>) -> Seq<char>;

/// Decodes bytes as UTF-8 (`String::from_utf8`), which fails exactly on bytes
/// that are not valid UTF-8; a failure is handed back as the text of std's
/// error. The contract claims only that this text is determined by the bytes
/// (named `utf8_error_text`); its wording is std's.
#[verifier::external_body]
fn string_from_utf8(bytes: Vec<u8>) -> (r: Result<String, String>)
    ensures
        r is Ok <==> valid_utf8(bytes@),
        r matches Ok(s) ==> s@ == decode_utf8(bytes@),
        r matches Err(t) ==> t@ == utf8_error_text(bytes@),
{
    match String::from_utf8(bytes) {
        Ok(s) => Ok(s),
        Err(e) => Err(e.to_string()),
    }
}

} // verus!
