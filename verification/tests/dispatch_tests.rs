use crosscall::api::{api_t, GoApi, GoApi_vtable};
use crosscall::engine::{do_call, ModuleBehavior, ModuleCache, ModuleScript};
use crosscall::envelope::{BlockEnv, Coin, MessageInfo};
use crosscall::error::DispatchError;
use crosscall::gas::{GasBudget, GasReport};
use crosscall::querier::{
    generate_call_info, querier_t, EngineHandlesScript, GoQuerier, Querier_vtable, QueryScript,
    ResolveScript, SystemQueryResult, TransferScript,
};
use crosscall::stack::CallStackMetadata;

fn empty_api() -> GoApi {
    GoApi {
        state: api_t {},
        vtable: GoApi_vtable {
            humanize_address: Vec::new(),
            canonicalize_address: Vec::new(),
            contract_external: Vec::new(),
        },
    }
}

fn module(internal: u64, external: u64, behavior: ModuleBehavior) -> ModuleScript {
    ModuleScript { internal_need: internal, external_need: external, behavior }
}

fn good_resolve(code: Vec<u8>, entries: Vec<(Vec<u8>, Vec<u8>)>, used_gas: u64) -> ResolveScript {
    ResolveScript {
        status: 0,
        code_identity: Some(code),
        grants_storage: true,
        grants_querier: true,
        storage_entries: entries,
        error_message: None,
        used_gas,
    }
}

fn host(
    resolve: Vec<(String, ResolveScript)>,
    modules: Vec<(Vec<u8>, ModuleScript)>,
    transfers: Vec<TransferScript>,
    queries: Vec<(Vec<u8>, QueryScript)>,
    max_depth: u32,
) -> GoQuerier {
    GoQuerier {
        state: querier_t::new(),
        vtable: Querier_vtable {
            resolve_call_context: resolve,
            get_engine_handles: EngineHandlesScript {
                status: 0,
                api: Some(empty_api()),
                cache: Some(ModuleCache { modules, max_call_depth: max_depth }),
                error_message: None,
            },
            transfer_value: transfers,
            query_external: queries,
            max_call_depth: max_depth,
        },
    }
}

fn env() -> BlockEnv {
    BlockEnv { height: 10, time: 1000, chain_id: String::from("test-chain") }
}

fn no_funds() -> MessageInfo {
    MessageInfo { sender: String::from("creator"), funds: Vec::new() }
}

#[test]
fn call_runs_the_resolved_module_and_folds_in_host_gas() {
    // Scenario: resolve "contractA" to a 32-byte identity, grant the
    // handles, run the entry message under a 100000 budget.
    let code = vec![0x11u8; 32];
    let mut querier = host(
        vec![(String::from("contractA"), good_resolve(code.clone(), Vec::new(), 40))],
        vec![(code, module(500, 20, ModuleBehavior::Complete { data: b"done".to_vec() }))],
        Vec::new(),
        Vec::new(),
        8,
    );
    let root = CallStackMetadata::root(String::from("creator"));
    let (result, report) = querier.call(
        &String::from("caller"),
        &String::from("contractA"),
        &no_funds(),
        &br#"{"increment":{}}"#.to_vec(),
        &env(),
        100000,
        &root,
    );
    assert_eq!(result.unwrap(), b"done".to_vec());
    assert!(report.used_internally > 0);
    assert_eq!(report.used_internally, 500);
    // at least the cost of one resolve call, plus the module's host work
    assert!(report.used_externally >= 40);
    assert_eq!(report.used_externally, 60);
    // exactly-once release: everything obtained was given back
    assert_eq!(querier.state.ledger().allocated(), 2);
    assert_eq!(querier.state.ledger().released(), 2);
    assert_eq!(querier.state.ledger().resolve_calls(), 1);
}

#[test]
fn resolve_with_null_storage_is_a_violation_with_no_release() {
    // Scenario: the host reports Ok but withholds the storage handle.
    let script = ResolveScript {
        status: 0,
        code_identity: Some(vec![0x11u8; 32]),
        grants_storage: false,
        grants_querier: true,
        storage_entries: Vec::new(),
        error_message: None,
        used_gas: 40,
    };
    let mut querier = host(
        vec![(String::from("contractA"), script)],
        Vec::new(),
        Vec::new(),
        Vec::new(),
        8,
    );
    let (result, gas) = querier.resolve_call_context(&String::from("contractA"));
    match result {
        Err(DispatchError::BoundaryProtocolViolation { message }) => {
            assert_eq!(message, "resolver reported success but the call context is incomplete");
        }
        _ => panic!("expected a protocol violation"),
    }
    assert_eq!(gas, 0);
    assert_eq!(querier.state.ledger().allocated(), 0);
    assert_eq!(querier.state.ledger().released(), 0);
}

#[test]
fn exhausting_the_budget_reports_the_whole_budget_as_internal() {
    // Scenario: budget 10, the module's entry point never finishes.
    let code = vec![0x22u8; 32];
    let mut querier = host(
        vec![(String::from("looper"), good_resolve(code.clone(), Vec::new(), 0))],
        vec![(code, module(u64::MAX, 0, ModuleBehavior::Complete { data: Vec::new() }))],
        Vec::new(),
        Vec::new(),
        8,
    );
    let root = CallStackMetadata::root(String::from("creator"));
    let (result, report) = querier.call(
        &String::from("caller"),
        &String::from("looper"),
        &no_funds(),
        &br#"{"cpu_loop":{}}"#.to_vec(),
        &env(),
        10,
        &root,
    );
    assert!(matches!(result, Err(DispatchError::GasExhausted)));
    assert_eq!(report.used_internally, 10);
    assert_eq!(report.used_externally, 0);
    // handles were still released on the failure path
    assert_eq!(querier.state.ledger().allocated(), 2);
    assert_eq!(querier.state.ledger().released(), 2);
}

#[test]
fn depth_gate_fails_before_any_resolver_call() {
    let code = vec![0x11u8; 32];
    let mut querier = host(
        vec![(String::from("contractA"), good_resolve(code, Vec::new(), 1))],
        Vec::new(),
        Vec::new(),
        Vec::new(),
        3,
    );
    let deep = CallStackMetadata {
        depth: 3,
        sender_address: String::from("creator"),
        delegate_context_address: None,
    };
    let (result, report) = querier.call(
        &String::from("caller"),
        &String::from("contractA"),
        &no_funds(),
        &Vec::new(),
        &env(),
        1000,
        &deep,
    );
    assert!(matches!(result, Err(DispatchError::DepthExceeded)));
    assert_eq!(report, GasReport { used_internally: 0, used_externally: 0 });
    assert_eq!(querier.state.ledger().resolve_calls(), 0);
    assert_eq!(querier.state.ledger().allocated(), 0);
}

#[test]
fn wrong_code_identity_length_cycles_the_granted_handles() {
    // 16 bytes instead of 32: a protocol violation, and the two handles the
    // host granted are released before returning.
    let mut querier = host(
        vec![(String::from("contractA"), good_resolve(vec![0x11u8; 16], Vec::new(), 5))],
        Vec::new(),
        Vec::new(),
        Vec::new(),
        8,
    );
    let (result, gas) = querier.resolve_call_context(&String::from("contractA"));
    assert!(matches!(result, Err(DispatchError::BoundaryProtocolViolation { .. })));
    assert_eq!(gas, 0);
    assert_eq!(querier.state.ledger().allocated(), 2);
    assert_eq!(querier.state.ledger().released(), 2);
}

#[test]
fn resolving_an_unknown_address_names_it_in_the_error() {
    let mut querier = host(Vec::new(), Vec::new(), Vec::new(), Vec::new(), 8);
    let (result, _gas) = querier.resolve_call_context(&String::from("nobody"));
    match result {
        Err(DispatchError::RecoverableBackend { message }) => {
            assert_eq!(message, "failed to resolve call context for address nobody");
        }
        _ => panic!("expected a backend error"),
    }
}

#[test]
fn delegate_call_runs_target_code_against_the_callers_storage() {
    // Contract B delegate-calls contract A: A's code identity, B's storage.
    let code_a = vec![0x11u8; 32];
    let code_b = vec![0x22u8; 32];
    let entries_b = vec![(b"k".to_vec(), b"v".to_vec())];
    let mut querier = host(
        vec![
            (String::from("contractA"), good_resolve(code_a.clone(), Vec::new(), 3)),
            (String::from("contractB"), good_resolve(code_b, entries_b, 4)),
        ],
        vec![(code_a, module(100, 0, ModuleBehavior::Complete { data: b"ranA".to_vec() }))],
        Vec::new(),
        Vec::new(),
        8,
    );
    let (resolved, g1, g2) = querier.resolve_delegate_context(
        &String::from("contractA"),
        &String::from("contractB"),
    );
    let context = resolved.unwrap_or_else(|_| panic!("delegate resolution failed"));
    // the executing code identity is A's
    assert_eq!(context.code_identity.as_bytes(), &vec![0x11u8; 32]);
    // while storage reads observe B's entries
    assert_eq!(context.storage.get(b"k"), Some(&b"v".to_vec()));
    assert_eq!(context.storage.get(b"other"), None);
    // the two live handles are distinct host resources
    assert!(context.storage.id() != context.querier.id());
    assert_eq!((g1, g2), (3, 4));
    // A's surplus handles were already cycled; B's pair is still live
    assert_eq!(querier.state.ledger().allocated(), 4);
    assert_eq!(querier.state.ledger().released(), 2);
    querier.release_context(context);
    assert_eq!(querier.state.ledger().released(), 4);

    // the full delegate-call runs A's module and balances the ledger
    let stack = CallStackMetadata {
        depth: 1,
        sender_address: String::from("creator"),
        delegate_context_address: None,
    };
    let (result, report) = querier.delegate_call(
        &String::from("contractB"),
        &String::from("contractA"),
        &no_funds(),
        &Vec::new(),
        &env(),
        1000,
        &stack,
    );
    assert_eq!(result.unwrap(), b"ranA".to_vec());
    assert_eq!(report.used_internally, 100);
    assert_eq!(report.used_externally, 7);
    assert_eq!(querier.state.ledger().allocated(), 8);
    assert_eq!(querier.state.ledger().released(), 8);
}

#[test]
fn a_chained_delegate_call_keeps_the_original_storage_owner() {
    // C was already running under B's delegate context; a further
    // delegate-call of A from C must still resolve B's storage, not C's.
    let code_a = vec![0x11u8; 32];
    let entries_b = vec![(b"k".to_vec(), b"v".to_vec())];
    let entries_c = vec![(b"k".to_vec(), b"wrong".to_vec())];
    let mut querier = host(
        vec![
            (String::from("contractA"), good_resolve(code_a.clone(), Vec::new(), 0)),
            (String::from("contractB"), good_resolve(vec![0x22u8; 32], entries_b, 0)),
            (String::from("contractC"), good_resolve(vec![0x33u8; 32], entries_c, 0)),
        ],
        vec![(code_a, module(1, 0, ModuleBehavior::Complete { data: b"ranA".to_vec() }))],
        Vec::new(),
        Vec::new(),
        8,
    );
    let stack = CallStackMetadata {
        depth: 2,
        sender_address: String::from("creator"),
        delegate_context_address: Some(String::from("contractB")),
    };
    // the resolution a delegate-call from C makes under this stack
    let (resolved, _g1, _g2) = querier.resolve_delegate_context(
        &String::from("contractA"),
        &String::from("contractB"),
    );
    let context = resolved.unwrap();
    assert_eq!(context.storage.get(b"k"), Some(&b"v".to_vec()));
    querier.release_context(context);

    let (result, _report) = querier.delegate_call(
        &String::from("contractC"),
        &String::from("contractA"),
        &no_funds(),
        &Vec::new(),
        &env(),
        1000,
        &stack,
    );
    assert_eq!(result.unwrap(), b"ranA".to_vec());
    // every handle resolved along the way was given back
    assert_eq!(querier.state.ledger().allocated(), querier.state.ledger().released());
}

#[test]
fn transfer_cost_and_failure_are_reported() {
    let code = vec![0x11u8; 32];
    let funds = MessageInfo {
        sender: String::from("creator"),
        funds: vec![Coin { denom: String::from("uatom"), amount: 5 }],
    };
    // a failing transfer aborts the call and still reports its cost
    let mut querier = host(
        vec![(String::from("contractA"), good_resolve(code.clone(), Vec::new(), 1))],
        Vec::new(),
        vec![TransferScript {
            from: String::from("caller"),
            to: String::from("contractA"),
            status: 5,
            used_gas: 11,
            error_message: Some(String::from("insufficient funds")),
        }],
        Vec::new(),
        8,
    );
    let root = CallStackMetadata::root(String::from("creator"));
    let (result, report) = querier.call(
        &String::from("caller"),
        &String::from("contractA"),
        &funds,
        &Vec::new(),
        &env(),
        1000,
        &root,
    );
    match result {
        Err(DispatchError::RecoverableBackend { message }) => {
            assert_eq!(message, "insufficient funds");
        }
        _ => panic!("expected a backend error"),
    }
    assert_eq!(report.used_externally, 11);
    assert_eq!(querier.state.ledger().resolve_calls(), 0);

    // a successful transfer's cost is folded into the final report
    let code2 = code.clone();
    let mut querier = host(
        vec![(String::from("contractA"), good_resolve(code.clone(), Vec::new(), 7))],
        vec![(code2, module(9, 3, ModuleBehavior::Complete { data: Vec::new() }))],
        vec![TransferScript {
            from: String::from("caller"),
            to: String::from("contractA"),
            status: 0,
            used_gas: 5,
            error_message: None,
        }],
        Vec::new(),
        8,
    );
    let (result, report) = querier.call(
        &String::from("caller"),
        &String::from("contractA"),
        &funds,
        &Vec::new(),
        &env(),
        1000,
        &root,
    );
    assert!(result.is_ok());
    assert_eq!(report.used_internally, 9);
    // transfer (5) + resolve (7) + module host work (3)
    assert_eq!(report.used_externally, 15);
}

#[test]
fn transfer_cost_past_the_budget_exhausts_the_call() {
    let funds = MessageInfo {
        sender: String::from("creator"),
        funds: vec![Coin { denom: String::from("uatom"), amount: 5 }],
    };
    let mut querier = host(
        Vec::new(),
        Vec::new(),
        vec![TransferScript {
            from: String::from("caller"),
            to: String::from("contractA"),
            status: 0,
            used_gas: 50,
            error_message: None,
        }],
        Vec::new(),
        8,
    );
    let root = CallStackMetadata::root(String::from("creator"));
    let (result, report) = querier.call(
        &String::from("caller"),
        &String::from("contractA"),
        &funds,
        &Vec::new(),
        &env(),
        30,
        &root,
    );
    assert!(matches!(result, Err(DispatchError::GasExhausted)));
    assert_eq!(report.used_externally, 30);
}

#[test]
fn contract_failure_still_reports_the_gas_it_burned() {
    let code = vec![0x33u8; 32];
    let mut querier = host(
        vec![(String::from("contractA"), good_resolve(code.clone(), Vec::new(), 2))],
        vec![(
            code,
            module(80, 4, ModuleBehavior::Failure { message: String::from("entry point failed") }),
        )],
        Vec::new(),
        Vec::new(),
        8,
    );
    let root = CallStackMetadata::root(String::from("creator"));
    let (result, report) = querier.call(
        &String::from("caller"),
        &String::from("contractA"),
        &no_funds(),
        &Vec::new(),
        &env(),
        1000,
        &root,
    );
    match result {
        Err(DispatchError::RecoverableBackend { message }) => {
            assert_eq!(message, "entry point failed");
        }
        _ => panic!("expected the contract failure"),
    }
    assert_eq!(report.used_internally, 80);
    assert_eq!(report.used_externally, 6);
    assert_eq!(querier.state.ledger().released(), 2);
}

#[test]
fn missing_module_fails_with_a_zero_cost_acquisition_error() {
    let context_code = vec![0x44u8; 32];
    let mut querier = host(
        vec![(String::from("contractA"), good_resolve(context_code, Vec::new(), 0))],
        Vec::new(),
        Vec::new(),
        Vec::new(),
        8,
    );
    let root = CallStackMetadata::root(String::from("creator"));
    let (result, report) = querier.call(
        &String::from("caller"),
        &String::from("contractA"),
        &no_funds(),
        &Vec::new(),
        &env(),
        1000,
        &root,
    );
    match result {
        Err(DispatchError::RecoverableBackend { message }) => {
            assert_eq!(message, "module cache holds no code with the requested identity");
        }
        _ => panic!("expected the acquisition failure"),
    }
    assert_eq!(report.used_internally, 0);
    assert_eq!(report.used_externally, 0);
    assert_eq!(querier.state.ledger().released(), 2);
}

#[test]
fn do_call_checks_the_engine_depth_limit() {
    let code = vec![0x55u8; 32];
    let mut querier = host(
        vec![(String::from("contractA"), good_resolve(code.clone(), Vec::new(), 0))],
        vec![(code, module(1, 0, ModuleBehavior::Complete { data: Vec::new() }))],
        Vec::new(),
        Vec::new(),
        8,
    );
    let (resolved, _gas) = querier.resolve_call_context(&String::from("contractA"));
    let context = resolved.unwrap_or_else(|_| panic!("resolution failed"));
    let api = empty_api();
    let cache = ModuleCache { modules: Vec::new(), max_call_depth: 2 };
    let stack = CallStackMetadata {
        depth: 3,
        sender_address: String::from("creator"),
        delegate_context_address: None,
    };
    let (result, report) = do_call(
        &context,
        &api,
        &cache,
        GasBudget { limit: 100 },
        &stack,
        &Vec::new(),
        &env(),
        &no_funds(),
    );
    assert!(matches!(result, Err(DispatchError::DepthExceeded)));
    assert_eq!(report, GasReport { used_internally: 0, used_externally: 0 });
    querier.release_context(context);
}

#[test]
fn generate_call_info_yields_the_checksum_and_cycles_the_handles() {
    let code = vec![0x11u8; 32];
    let mut querier = host(
        vec![(String::from("contractA"), good_resolve(code.clone(), Vec::new(), 40))],
        Vec::new(),
        Vec::new(),
        Vec::new(),
        8,
    );
    let (result, gas) = generate_call_info(&mut querier, &String::from("contractA"));
    assert_eq!(result.unwrap().as_bytes(), &code);
    assert_eq!(gas, 40);
    // the handles resolved along the way were given back at once
    assert_eq!(querier.state.ledger().allocated(), 2);
    assert_eq!(querier.state.ledger().released(), 2);

    let (missing, gas) = generate_call_info(&mut querier, &String::from("nobody"));
    assert!(matches!(missing, Err(DispatchError::RecoverableBackend { .. })));
    assert_eq!(gas, 0);
}

#[test]
fn query_raw_decodes_the_boundary_envelope() {
    let data_request = b"req-data".to_vec();
    let contract_err_request = b"req-cerr".to_vec();
    let system_err_request = b"req-serr".to_vec();
    let garbage_request = b"req-garbage".to_vec();
    let queries = vec![
        (
            data_request.clone(),
            QueryScript {
                status: 0,
                output: Some(br#"{"ok":{"ok":"aGVsbG8="}}"#.to_vec()),
                error_message: None,
                used_gas: 3,
            },
        ),
        (
            contract_err_request.clone(),
            QueryScript {
                status: 0,
                output: Some(br#"{"ok":{"error":"boom"}}"#.to_vec()),
                error_message: None,
                used_gas: 3,
            },
        ),
        (
            system_err_request.clone(),
            QueryScript {
                status: 0,
                output: Some(br#"{"error":{"unknown":{}}}"#.to_vec()),
                error_message: None,
                used_gas: 3,
            },
        ),
        (
            garbage_request.clone(),
            QueryScript {
                status: 0,
                output: Some(b"not json at all".to_vec()),
                error_message: None,
                used_gas: 3,
            },
        ),
    ];
    let querier = host(Vec::new(), Vec::new(), Vec::new(), queries, 8);

    let (result, report) = querier.query_raw(&data_request, 100);
    match result.unwrap() {
        SystemQueryResult::Data { data } => assert_eq!(data, b"hello".to_vec()),
        _ => panic!("expected data"),
    }
    assert_eq!(report.used_externally, 3);
    assert_eq!(report.used_internally, 0);

    let (result, _) = querier.query_raw(&contract_err_request, 100);
    match result.unwrap() {
        SystemQueryResult::ContractFailure { message } => assert_eq!(message, "boom"),
        _ => panic!("expected a contract failure"),
    }

    let (result, _) = querier.query_raw(&system_err_request, 100);
    assert!(matches!(result.unwrap(), SystemQueryResult::SystemFailure { .. }));

    let (result, _) = querier.query_raw(&garbage_request, 100);
    match result.unwrap() {
        SystemQueryResult::InvalidResponse { response, .. } => {
            assert_eq!(response, b"not json at all".to_vec());
        }
        _ => panic!("expected an invalid response"),
    }
}

#[test]
fn query_raw_classifies_failures_and_meters_gas() {
    let failing = b"req-fail".to_vec();
    let pricey = b"req-pricey".to_vec();
    let queries = vec![
        (
            failing.clone(),
            QueryScript {
                status: 4,
                output: None,
                error_message: Some(String::from("backend says no")),
                used_gas: 6,
            },
        ),
        (
            pricey.clone(),
            QueryScript {
                status: 0,
                output: Some(br#"{"ok":{"ok":""}}"#.to_vec()),
                error_message: None,
                used_gas: 500,
            },
        ),
    ];
    let querier = host(Vec::new(), Vec::new(), Vec::new(), queries, 8);

    let (result, report) = querier.query_raw(&failing, 100);
    match result {
        Err(DispatchError::RecoverableBackend { message }) => {
            assert_eq!(message, "backend says no");
        }
        _ => panic!("expected a backend error"),
    }
    assert_eq!(report.used_externally, 6);

    // the host's charge is metered down to the caller's limit
    let (_result, report) = querier.query_raw(&pricey, 100);
    assert_eq!(report.used_externally, 100);

    // an unknown request fails with the default message and costs nothing
    let (result, report) = querier.query_raw(&b"unknown".to_vec(), 100);
    match result {
        Err(DispatchError::RecoverableBackend { message }) => {
            assert_eq!(message, "failed to query the external contract");
        }
        _ => panic!("expected a backend error"),
    }
    assert_eq!(report.used_externally, 0);
}

#[test]
fn storage_reads_use_the_first_entry_for_a_key() {
    let entries = vec![
        (b"k".to_vec(), b"first".to_vec()),
        (b"k".to_vec(), b"second".to_vec()),
        (b"other".to_vec(), b"x".to_vec()),
    ];
    let mut querier = host(
        vec![(String::from("contractA"), good_resolve(vec![0x66u8; 32], entries, 0))],
        Vec::new(),
        Vec::new(),
        Vec::new(),
        8,
    );
    let (resolved, _gas) = querier.resolve_call_context(&String::from("contractA"));
    let context = resolved.unwrap_or_else(|_| panic!("resolution failed"));
    assert_eq!(context.storage.get(b"k"), Some(&b"first".to_vec()));
    assert_eq!(context.storage.get(b"other"), Some(&b"x".to_vec()));
    assert_eq!(context.storage.get(b"absent"), None);
    querier.release_context(context);
}

#[test]
fn engine_handle_violation_releases_the_context() {
    let code = vec![0x77u8; 32];
    let mut querier = host(
        vec![(String::from("contractA"), good_resolve(code, Vec::new(), 1))],
        Vec::new(),
        Vec::new(),
        Vec::new(),
        8,
    );
    // the host reports success for the engine handles but withholds the cache
    querier.vtable.get_engine_handles.cache = None;
    let root = CallStackMetadata::root(String::from("creator"));
    let (result, report) = querier.call(
        &String::from("caller"),
        &String::from("contractA"),
        &no_funds(),
        &Vec::new(),
        &env(),
        1000,
        &root,
    );
    match result {
        Err(DispatchError::BoundaryProtocolViolation { message }) => {
            assert_eq!(message, "host reported success but the engine handles are incomplete");
        }
        _ => panic!("expected a protocol violation"),
    }
    assert_eq!(report.used_externally, 1);
    assert_eq!(querier.state.ledger().allocated(), 2);
    assert_eq!(querier.state.ledger().released(), 2);
}
