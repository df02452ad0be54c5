use rayrust::codegen::{
    callback_name, factory_name, plan_actor, remote_names, type_name_upper, CallStyle,
    MethodSig, Receiver,
};
use rayrust::error::{ffi_error, ffi_error_detail, RayError};
use rayrust::object_ref::ObjectRef;
use rayrust::options::{resources_to_json, ActorLifetime, ActorOptions, RayConfig, TaskOptions};
use rayrust::runtime::{
    read_payload, actor_call_python_request, actor_create_python_request, actor_create_request, get_raw,
    put_raw, task_call_python_request, task_call_request, ActorHandle, Ray,
};
use rayrust::text::{c_text, hex_encode, join, json_escape, push_decimal_i64};
use rayrust::worker::{add, compute, greet, multiply, Counter};

fn ffi_message(e: RayError) -> String {
    match e {
        RayError::Ffi(m) => m,
        other => panic!("expected an FFI error, got {:?}", other),
    }
}

// ── Text ───────────────────────────────────────────────────

#[test]
fn json_escape_escapes_quotes_backslashes_and_controls() {
    assert_eq!(json_escape("plain"), "plain");
    assert_eq!(json_escape("a\"b\\c"), "a\\\"b\\\\c");
    assert_eq!(json_escape("l1\nl2\r\t"), "l1\\nl2\\r\\t");
    assert_eq!(json_escape("\u{1}\u{1f}"), "\\u0001\\u001f");
    assert_eq!(json_escape("\0"), "\\u0000");
    assert_eq!(json_escape("é✓"), "é✓");
}

#[test]
fn hex_encode_is_two_lowercase_digits_per_byte() {
    assert_eq!(hex_encode(&[]), "");
    assert_eq!(hex_encode(&[0x00, 0x0f, 0xab, 0xff]), "000fabff");
}

#[test]
fn hex_encoding_reads_back() {
    let bytes: Vec<u8> = (0..=255).collect();
    let text = hex_encode(&bytes);
    assert_eq!(text.len(), 512);
    let back: Vec<u8> = (0..256)
        .map(|i| u8::from_str_radix(&text[2 * i..2 * i + 2], 16).unwrap())
        .collect();
    assert_eq!(back, bytes);
}

#[test]
fn decimal_rendering() {
    let mut s = String::new();
    push_decimal_i64(&mut s, -2147483648);
    assert_eq!(s, "-2147483648");
    let mut s = String::from("x=");
    push_decimal_i64(&mut s, 0);
    push_decimal_i64(&mut s, 907);
    push_decimal_i64(&mut s, i64::MIN);
    assert_eq!(s, "x=0907-9223372036854775808");
}

#[test]
fn c_text_empties_strings_with_nul() {
    assert_eq!(c_text("abc"), "abc");
    assert_eq!(c_text("a\0b"), "");
    assert_eq!(c_text(""), "");
}

#[test]
fn join_puts_separator_between_neighbours() {
    let parts = vec!["/a".to_string(), "/b.so".to_string(), "".to_string()];
    assert_eq!(join(&parts, ":"), "/a:/b.so:");
    assert_eq!(join(&[], ":"), "");
    assert_eq!(join(&parts[..1], ":"), "/a");
}

// ── Errors ─────────────────────────────────────────────────

#[test]
fn error_messages() {
    assert_eq!(RayError::Runtime("x".into()).to_string(), "Ray runtime error: x");
    assert_eq!(RayError::Serialization("y".into()).to_string(), "Serialization error: y");
    assert_eq!(RayError::Ffi("z".into()).to_string(), "FFI error: z");
    assert_eq!(RayError::ObjectNotFound("w".into()).to_string(), "Object not found: w");
    assert_eq!(RayError::NullByte.to_string(), "Null byte in string");
    assert_eq!(RayError::Utf8.to_string(), "UTF-8 conversion error");
    assert_eq!(ffi_message(ffi_error("ray_put", None)), "ray_put: unknown FFI error");
    assert_eq!(ffi_message(ffi_error("ray_put", Some("boom".into()))), "ray_put: boom");
    assert_eq!(
        ffi_message(ffi_error_detail("ray_task_call", "f", Some("e".into()))),
        "ray_task_call (f): e"
    );
}

// ── Configuration ──────────────────────────────────────────

#[test]
fn config_builders_set_one_field() {
    let c = RayConfig::new("127.0.0.1:6379")
        .node_ip("192.168.1.5")
        .namespace("production")
        .runtime_env("{\"pip\": [\"numpy\"]}")
        .log_dir("/tmp/ray")
        .code_search_path(vec!["/opt/w".into(), "/opt/x.so".into()])
        .default_actor_lifetime(ActorLifetime::Detached);
    assert_eq!(c.address, "127.0.0.1:6379");
    assert!(!c.local_mode);
    assert_eq!(c.node_ip, "192.168.1.5");
    assert_eq!(c.namespace, "production");
    assert_eq!(c.log_dir, "/tmp/ray");
    assert_eq!(c.default_actor_lifetime, ActorLifetime::Detached);
    let d = RayConfig::new("h").detached_actors();
    assert_eq!(d.default_actor_lifetime, ActorLifetime::Detached);
    assert_eq!(d.address, "h");
    let l = RayConfig::local();
    assert!(l.local_mode);
    assert_eq!(l.address, "");
    assert_eq!(l.default_actor_lifetime, ActorLifetime::NonDetached);
    assert_eq!(ActorLifetime::default(), ActorLifetime::NonDetached);
}

#[test]
fn init_request_joins_paths_and_numbers_modes() {
    let c = RayConfig::new("head:6379")
        .code_search_path(vec!["/a".into(), "/b".into()])
        .default_actor_lifetime(ActorLifetime::Detached)
        .node_ip("bad\0ip");
    let r = c.init_request();
    assert_eq!(r.address, "head:6379");
    assert_eq!(r.local_mode, 0);
    assert_eq!(r.code_search_path, "/a:/b");
    assert_eq!(r.default_actor_lifetime, 1);
    assert_eq!(r.node_ip, "");
    assert!(r.check_cpp_sdk);
    let r = RayConfig::local().init_request();
    assert_eq!(r.local_mode, 1);
    assert_eq!(r.default_actor_lifetime, 0);
    assert!(!r.check_cpp_sdk);
}

// ── Options and their JSON ─────────────────────────────────

#[test]
fn task_options_resources_json() {
    let o = TaskOptions::new();
    assert!(!o.has_resources());
    assert_eq!(o.resources_json(), "");
    let o = TaskOptions::new().resource_text("CPU", "2").resource_text("GPU", "0.5");
    assert!(o.has_resources());
    assert_eq!(o.resources_json(), "{\"CPU\":2,\"GPU\":0.5}");
    assert_eq!(
        resources_to_json(&[("a\"b".to_string(), "1".to_string())]),
        "{\"a\\\"b\":1}"
    );
}

#[test]
fn default_actor_options_give_empty_json() {
    assert_eq!(ActorOptions::new().to_json(), "");
    assert_eq!(ActorOptions::default().max_concurrency, 1);
}

#[test]
fn actor_options_json_lists_set_options_in_order() {
    let o = ActorOptions::new()
        .name("counter")
        .ray_namespace("ns")
        .resource_text("CPU", "2")
        .max_restarts(3)
        .max_concurrency(10)
        .runtime_env_info("env\"x")
        .placement_group(vec![0x00, 0xab], 2);
    assert_eq!(
        o.to_json(),
        "{\"name\":\"counter\",\"ray_namespace\":\"ns\",\"resources\":{\"CPU\":2},\
         \"max_restarts\":3,\"max_concurrency\":10,\"serialized_runtime_env_info\":\"env\\\"x\",\
         \"placement_group_id\":\"00ab\",\"bundle_index\":2}"
    );
    assert_eq!(ActorOptions::new().max_concurrency(0).to_json(), "{\"max_concurrency\":0}");
    assert_eq!(ActorOptions::new().max_restarts(-1).to_json(), "{\"max_restarts\":-1}");
}

// ── Requests ───────────────────────────────────────────────

#[test]
fn task_call_request_chooses_resource_path() {
    let r = task_call_request("f", &[], &TaskOptions::new());
    assert_eq!(r.func_name, "f");
    assert!(!r.pass_is_ref);
    assert!(r.resources_json.is_none());
    let r = task_call_request("f", &[true], &TaskOptions::new().resource_text("GPU", "1"));
    assert!(r.pass_is_ref);
    assert_eq!(r.resources_json.as_deref(), Some("{\"GPU\":1}"));
}

#[test]
fn actor_requests() {
    let r = actor_create_request("__rayrust_actor_factory_counter", &ActorOptions::new());
    assert_eq!(r.name, "__rayrust_actor_factory_counter");
    assert!(r.options_json.is_none());
    let r = actor_create_python_request("m", "C", &ActorOptions::new().name("n"));
    assert_eq!(r.module, "m");
    assert_eq!(r.name, "C");
    assert_eq!(r.options_json.as_deref(), Some("{\"name\":\"n\"}"));
    let p = task_call_python_request("mod", "fun", &[false]);
    assert_eq!((p.module.as_str(), p.function.as_str(), p.pass_is_ref), ("mod", "fun", true));
    let p = actor_call_python_request("meth", &[]);
    assert_eq!((p.function.as_str(), p.pass_is_ref), ("meth", false));
}

// ── Replies ────────────────────────────────────────────────

#[test]
fn connect_reports_init_failures() {
    assert!(Ray::connect(0, Some("ignored".into())).is_ok());
    match Ray::connect(-3, Some("no head".into())) {
        Err(RayError::Runtime(m)) => assert_eq!(m, "ray_init failed (code -3): no head"),
        _ => panic!("expected a runtime error"),
    }
    match Ray::connect(7, None) {
        Err(RayError::Runtime(m)) => assert_eq!(m, "ray_init failed (code 7): "),
        _ => panic!("expected a runtime error"),
    }
}

#[test]
fn call_replies_keep_binary_ids() {
    let id = vec![0u8, 1, 0, 255];
    let o = Ray::task_call("f", &TaskOptions::new(), Some(id.clone()), None).unwrap();
    assert_eq!(o.id(), &id[..]);
    assert!(!o.is_xlang());
    let o = Ray::task_call_python("m", "f", Some(id.clone()), None).unwrap();
    assert!(o.is_xlang());
    let o = Ray::actor_call("a::m", Some(id.clone()), None).unwrap();
    assert!(!o.is_xlang());
    let o = Ray::actor_call_python("m", Some(id.clone()), None).unwrap();
    assert!(o.is_xlang());
    let h = Ray::actor_create("factory", Some(id.clone()), None).unwrap();
    assert_eq!(h.id(), &id[..]);
    let h = Ray::actor_create_python("m", "C", Some(id.clone()), None).unwrap();
    assert_eq!(h.id(), &id[..]);
    assert_eq!(Ray::placement_group_create(Some(id.clone()), None).unwrap(), id);
    assert_eq!(put_raw(Some(id.clone()), None).unwrap(), id);
    assert_eq!(get_raw(&[1, 2], Some(id.clone())).unwrap(), id);
}

#[test]
fn call_replies_name_the_failed_call() {
    let e = Ray::task_call("f", &TaskOptions::new(), None, Some("x".into())).unwrap_err();
    assert_eq!(ffi_message(e), "ray_task_call (f): x");
    let opts = TaskOptions::new().resource_text("CPU", "1");
    let e = Ray::task_call("f", &opts, None, None).unwrap_err();
    assert_eq!(ffi_message(e), "ray_task_call_with_resources (f): unknown FFI error");
    let e = Ray::task_call_python("mod", "fun", None, None).unwrap_err();
    assert_eq!(ffi_message(e), "ray_task_call_python (mod.fun): unknown FFI error");
    let e = Ray::actor_create("fac", None, Some("y".into())).unwrap_err();
    assert_eq!(ffi_message(e), "ray_actor_create_with_options (fac): y");
    let e = Ray::actor_create_python("m", "C", None, None).unwrap_err();
    assert_eq!(ffi_message(e), "ray_actor_create_python_with_options (m.C): unknown FFI error");
    let e = Ray::actor_call("a::m", None, None).unwrap_err();
    assert_eq!(ffi_message(e), "ray_actor_call (a::m): unknown FFI error");
    let e = Ray::actor_call_python("meth", None, None).unwrap_err();
    assert_eq!(ffi_message(e), "ray_actor_call_python (meth): unknown FFI error");
    let e = Ray::placement_group_create(None, None).unwrap_err();
    assert_eq!(ffi_message(e), "ray_placement_group_create: unknown FFI error");
    let e = put_raw(None, Some("full".into())).unwrap_err();
    assert_eq!(ffi_message(e), "ray_put: full");
    match get_raw(&[1, 2, 3], None) {
        Err(RayError::ObjectNotFound(m)) => assert_eq!(m, "<3 bytes>"),
        _ => panic!("expected not found"),
    }
}

#[test]
fn kill_actor_and_cancel() {
    assert!(Ray::kill_actor(None).is_ok());
    assert!(Ray::kill_actor(Some(String::new())).is_ok());
    let e = Ray::kill_actor(Some("gone".into())).unwrap_err();
    assert_eq!(ffi_message(e), "ray_actor_kill: gone");
    assert!(Ray::cancel(0).is_ok());
    match Ray::cancel(2) {
        Err(RayError::Runtime(m)) => assert_eq!(m, "ray_cancel failed (code 2)"),
        _ => panic!("expected a runtime error"),
    }
}

#[test]
fn get_actor_tells_not_found_from_failure() {
    assert!(Ray::get_actor(Some(vec![]), None).unwrap().is_none());
    let h = Ray::get_actor(Some(vec![9]), Some("stale".into())).unwrap().unwrap();
    assert_eq!(h.id(), &[9]);
    assert!(Ray::get_actor(None, None).unwrap().is_none());
    assert!(Ray::get_actor(None, Some(String::new())).unwrap().is_none());
    let e = Ray::get_actor(None, Some("denied".into())).unwrap_err();
    assert_eq!(ffi_message(e), "ray_get_actor: denied");
}

#[test]
fn namespace_reply() {
    assert_eq!(Ray::namespace(false, None, None).unwrap(), "");
    assert_eq!(Ray::namespace(true, Some(b"prod".to_vec()), None).unwrap(), "prod");
    let e = Ray::namespace(true, None, None).unwrap_err();
    assert_eq!(ffi_message(e), "ray_get_namespace: unknown FFI error");
    let e = Ray::namespace(true, Some(vec![0xff, 0xfe]), None).unwrap_err();
    let std_text = String::from_utf8(vec![0xff, 0xfe]).unwrap_err().to_string();
    assert_eq!(ffi_message(e), format!("namespace not valid UTF-8: {}", std_text));
}

#[test]
fn wait_splits_refs_by_readiness_in_order() {
    let refs: Vec<ObjectRef<i64>> = vec![
        ObjectRef::from_id(vec![1]),
        ObjectRef::from_id_xlang(vec![2]),
        ObjectRef::from_id(vec![3]),
    ];
    let (ready, unready) = Ray::wait(&refs, Some(vec![true, false, true]), None).unwrap();
    assert_eq!(ready.iter().map(|r| r.id().to_vec()).collect::<Vec<_>>(), vec![vec![1], vec![3]]);
    assert_eq!(unready.len(), 1);
    assert_eq!(unready[0].id(), &[2]);
    assert!(unready[0].is_xlang());
    let e = Ray::wait(&refs, None, Some("t".into())).unwrap_err();
    assert_eq!(ffi_message(e), "ray_wait: t");
}

#[test]
fn get_many_payloads_strips_xlang_and_reports_missing() {
    let refs: Vec<ObjectRef<i64>> = vec![
        ObjectRef::from_id(vec![1]),
        ObjectRef::from_id_xlang(vec![2]),
        ObjectRef::from_id(vec![3]),
    ];
    let framed = rayrust::frame_xlang(&[0x2a]);
    let out = Ray::get_many_payloads(&refs, Some(vec![Some(vec![0x2a]), Some(framed), None]), None)
        .unwrap();
    assert_eq!(out.len(), 3);
    assert_eq!(out[0].as_ref().unwrap(), &vec![0x2a]);
    assert_eq!(out[1].as_ref().unwrap(), &vec![0x2a]);
    match &out[2] {
        Err(RayError::ObjectNotFound(m)) => assert_eq!(m, "object 2 not found"),
        _ => panic!("expected not found"),
    }
    let e = Ray::get_many_payloads(&refs, None, None).unwrap_err();
    assert_eq!(ffi_message(e), "ray_get_many: unknown FFI error");
}

#[test]
fn single_reads_strip_the_header_of_cross_language_objects() {
    let framed = rayrust::frame_xlang(&[0x2a]);
    let python: ObjectRef<i64> = ObjectRef::from_id_xlang(vec![1]);
    assert_eq!(read_payload(&python, framed.clone()), vec![0x2a]);
    // The mark survives a cast, so a cast Python result still reads back.
    let cast: ObjectRef<u8> = python.cast();
    assert_eq!(read_payload(&cast, framed.clone()), vec![0x2a]);
    // Cross-language bytes without a header are kept.
    assert_eq!(read_payload(&cast, vec![0x2a]), vec![0x2a]);
    // Plain objects are decoded as stored.
    let plain: ObjectRef<i64> = ObjectRef::from_id(vec![1]);
    assert_eq!(read_payload(&plain, framed.clone()), framed);
}

// ── Object references ──────────────────────────────────────

#[test]
fn object_ref_conversions() {
    let o: ObjectRef<String> = ObjectRef::from(vec![7, 0, 7]);
    assert_eq!(o.id(), &[7, 0, 7]);
    assert!(!o.is_xlang());
    let x: ObjectRef<()> = ObjectRef::from_id_xlang(vec![5]);
    let c: ObjectRef<i64> = x.cast();
    assert!(c.is_xlang());
    assert_eq!(c.id(), &[5]);
    let back: Vec<u8> = o.into();
    assert_eq!(back, vec![7, 0, 7]);
    let h = ActorHandle::from_id(vec![4]);
    assert_eq!(h.id(), &[4]);
}

// ── Generated names ────────────────────────────────────────

#[test]
fn generated_names() {
    assert_eq!(callback_name("Counter", "increment"), "__rayrust_member_counter_increment");
    assert_eq!(factory_name("Counter"), "__rayrust_actor_factory_counter");
    assert_eq!(type_name_upper("Counter_x1é"), "COUNTER_X1é");
    let r = remote_names("add", false);
    assert_eq!(r.remote, "add_remote");
    assert_eq!(r.remote_async, "add_remote_async");
    assert_eq!(r.register, "add_register");
    assert_eq!(r.callback, "__rayrust_callback_add");
    assert_eq!(r.ctor, "__RAYRUST_CTOR_add");
    assert!(!r.blocks_on_async);
}

#[test]
fn actor_plan_skips_the_constructor() {
    let methods = vec![
        MethodSig { name: "new".into(), receiver: Receiver::NoSelf },
        MethodSig { name: "increment".into(), receiver: Receiver::MutRef },
        MethodSig { name: "get".into(), receiver: Receiver::SharedRef },
        MethodSig { name: "make".into(), receiver: Receiver::NoSelf },
    ];
    let p = plan_actor("Counter", &methods);
    assert_eq!(p.factory, "__rayrust_actor_factory_counter");
    assert_eq!(p.register, "__register_counter_actor");
    assert_eq!(p.ctor, "__RAYRUST_CTOR_ACTOR_COUNTER");
    assert_eq!(p.create_fn, "counter_actor_create");
    assert_eq!(p.methods.len(), 3);
    assert_eq!(p.methods[0].registered_name, "__rayrust_actor_factory_counter::increment");
    assert_eq!(p.methods[0].callback, "__rayrust_member_counter_increment");
    assert_eq!(p.methods[0].caller, "counter_increment");
    assert_eq!(p.methods[0].caller_sync, "counter_increment_sync");
    assert_eq!(p.methods[0].call, CallStyle::ThroughMutPointer);
    assert_eq!(p.methods[1].call, CallStyle::ThroughPointer);
    assert_eq!(p.methods[2].call, CallStyle::Associated);
}

// ── Worker tasks and the counter actor ─────────────────────

#[test]
fn worker_tasks() {
    assert_eq!(add(1, 2), 3);
    assert_eq!(multiply(-4, 5), -20);
    assert_eq!(greet("Ray".to_string()), "Hello, Ray from Rust worker!");
    assert_eq!(compute(0), 0);
    assert_eq!(compute(-5), 0);
    assert_eq!(compute(5), 10);
    assert_eq!(compute(1_000_000), 499_999_500_000);
}

#[test]
fn counter_actor() {
    let mut c = Counter::new(100);
    assert_eq!(c.increment(5), 105);
    assert_eq!(c.get(), 105);
    c.reset();
    assert_eq!(c.get(), 0);
}
