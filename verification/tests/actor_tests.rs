use evm_actor::actor::{EvmContractActor, Method, MAX_CODE_SIZE};
use evm_actor::codec::ConstructorParams;
use evm_actor::engine::{Engine, Outcome, Status};
use evm_actor::error::ActorError;
use evm_actor::host::Host;
use evm_actor::u256::U256;

fn success_engine(output: Vec<u8>, writes: Vec<(U256, U256)>) -> Engine {
    Engine {
        writes,
        outcome: Ok(Outcome {
            reverted: false,
            status: Status::Success,
            output,
            selfdestruct: None,
        }),
    }
}

fn deploy(host: &mut Host, code: Vec<u8>, engine: Engine) -> Result<(), ActorError> {
    EvmContractActor::constructor(host, ConstructorParams { bytecode: code }, engine)
}

fn deployed_host() -> Host {
    let mut host = Host::new(0);
    let r = deploy(&mut host, vec![0x60, 0x01, 0x00], success_engine(vec![0xfe, 0x5b], Vec::new()));
    assert!(r.is_ok());
    host
}

#[test]
fn deploy_at_size_limit_passes_size_check() {
    let mut host = Host::new(1);
    let code = vec![0x00u8; MAX_CODE_SIZE];
    let r = deploy(&mut host, code, success_engine(vec![0x01], Vec::new()));
    assert!(r.is_ok());
}

#[test]
fn deploy_above_size_limit_is_invalid_input() {
    let mut host = Host::new(1);
    let code = vec![0x00u8; MAX_CODE_SIZE + 1];
    let r = deploy(&mut host, code, success_engine(vec![0x01], Vec::new()));
    assert_eq!(r, Err(ActorError::InvalidInput));
    assert!(host.state.is_none());
}

#[test]
fn deploy_empty_bytecode_is_invalid_input() {
    let mut host = Host::new(1);
    let r = deploy(&mut host, Vec::new(), success_engine(vec![0x01], Vec::new()));
    assert_eq!(r, Err(ActorError::InvalidInput));
    assert!(host.state.is_none());
}

#[test]
fn reverted_constructor_creates_no_record_and_signals_code_27() {
    let mut host = Host::new(1);
    let engine = Engine {
        writes: Vec::new(),
        outcome: Ok(Outcome {
            reverted: true,
            status: Status::Success,
            output: vec![0x01],
            selfdestruct: None,
        }),
    };
    let r = deploy(&mut host, vec![0x00], engine);
    assert_eq!(r, Err(ActorError::ContractReverted));
    assert_eq!(r.unwrap_err().exit_code(), 27);
    assert!(host.state.is_none());
}

#[test]
fn empty_constructor_output_is_empty_deployment() {
    let mut host = Host::new(1);
    let r = deploy(&mut host, vec![0x00], success_engine(Vec::new(), Vec::new()));
    assert_eq!(r, Err(ActorError::EmptyDeployment));
    assert!(host.state.is_none());
}

#[test]
fn constructor_fault_propagates_verbatim() {
    let mut host = Host::new(1);
    let engine = Engine {
        writes: Vec::new(),
        outcome: Ok(Outcome {
            reverted: false,
            status: Status::Fault(ActorError::NotFound),
            output: Vec::new(),
            selfdestruct: None,
        }),
    };
    let r = deploy(&mut host, vec![0x00], engine);
    assert_eq!(r, Err(ActorError::NotFound));
    assert!(host.state.is_none());
}

#[test]
fn constructor_engine_error_fault_propagates_verbatim() {
    let mut host = Host::new(1);
    let engine = Engine {
        writes: Vec::new(),
        outcome: Err(Status::Fault(ActorError::MissingOrCorruptState)),
    };
    let r = deploy(&mut host, vec![0x00], engine);
    assert_eq!(r, Err(ActorError::MissingOrCorruptState));
}

#[test]
fn constructor_other_status_is_unspecified() {
    let mut host = Host::new(1);
    let engine = Engine {
        writes: Vec::new(),
        outcome: Ok(Outcome {
            reverted: false,
            status: Status::Other,
            output: vec![0x01],
            selfdestruct: None,
        }),
    };
    let r = deploy(&mut host, vec![0x00], engine);
    assert_eq!(r, Err(ActorError::Unspecified));
    assert!(host.state.is_none());
}

#[test]
fn successful_deploy_persists_output_as_code() {
    let host = deployed_host();
    let st = host.state.as_ref().expect("record created");
    assert_eq!(st.bytecode.bytes, vec![0xfe, 0x5b]);
    let fetched = host.store.get(&st.bytecode).expect("code resolves");
    assert_eq!(fetched, vec![0xfe, 0x5b]);
}

#[test]
fn fresh_deployment_has_empty_storage() {
    let mut host = deployed_host();
    host.caller = 0;
    let key = U256::from_u64(42);
    let r = EvmContractActor::storage_at(
        &mut host,
        evm_actor::codec::GetStorageAtParams { storage_key: key },
    );
    assert_eq!(r, Err(ActorError::NotFound));
}

#[test]
fn committed_write_is_visible_to_storage_read() {
    let mut host = deployed_host();
    let key = U256::from_u64(7);
    let val = U256::from_u64(99);
    let engine = success_engine(vec![0xaa], vec![(key, val)]);
    let r = EvmContractActor::invoke_contract(&mut host, 2, &vec![0x01, 0x02], engine);
    assert_eq!(r.unwrap(), vec![0xaa]);
    host.caller = 0;
    let got = EvmContractActor::storage_at(
        &mut host,
        evm_actor::codec::GetStorageAtParams { storage_key: key },
    );
    assert_eq!(got, Ok(val));
}

#[test]
fn last_write_to_a_key_wins() {
    let mut host = deployed_host();
    let key = U256::from_u64(7);
    let engine = success_engine(
        Vec::new(),
        vec![(key, U256::from_u64(1)), (key, U256::from_u64(2))],
    );
    let r = EvmContractActor::invoke_contract(&mut host, 2, &Vec::new(), engine);
    assert!(r.is_ok());
    host.caller = 0;
    let got = EvmContractActor::storage_at(
        &mut host,
        evm_actor::codec::GetStorageAtParams { storage_key: key },
    );
    assert_eq!(got, Ok(U256::from_u64(2)));
}

#[test]
fn reverted_invocation_leaves_storage_unchanged() {
    let mut host = deployed_host();
    let key = U256::from_u64(7);
    let val = U256::from_u64(99);
    let commit = success_engine(Vec::new(), vec![(key, val)]);
    EvmContractActor::invoke_contract(&mut host, 2, &Vec::new(), commit).unwrap();
    let reverting = Engine {
        writes: vec![(key, U256::from_u64(123))],
        outcome: Ok(Outcome {
            reverted: true,
            status: Status::Success,
            output: Vec::new(),
            selfdestruct: None,
        }),
    };
    let r = EvmContractActor::invoke_contract(&mut host, 2, &Vec::new(), reverting);
    assert_eq!(r, Err(ActorError::ContractReverted));
    host.caller = 0;
    let got = EvmContractActor::storage_at(
        &mut host,
        evm_actor::codec::GetStorageAtParams { storage_key: key },
    );
    assert_eq!(got, Ok(val));
}

#[test]
fn reverted_invocation_on_never_written_key_stays_not_found() {
    let mut host = deployed_host();
    let key = U256::from_u64(8);
    let reverting = Engine {
        writes: vec![(key, U256::from_u64(5))],
        outcome: Ok(Outcome {
            reverted: true,
            status: Status::Success,
            output: Vec::new(),
            selfdestruct: None,
        }),
    };
    let r = EvmContractActor::invoke_contract(&mut host, 2, &Vec::new(), reverting);
    assert_eq!(r, Err(ActorError::ContractReverted));
    host.caller = 0;
    let got = EvmContractActor::storage_at(
        &mut host,
        evm_actor::codec::GetStorageAtParams { storage_key: key },
    );
    assert_eq!(got, Err(ActorError::NotFound));
}

#[test]
fn storage_read_denied_to_non_system_callers() {
    let mut host = deployed_host();
    let key = U256::from_u64(7);
    let engine = success_engine(Vec::new(), vec![(key, U256::from_u64(1))]);
    EvmContractActor::invoke_contract(&mut host, 2, &Vec::new(), engine).unwrap();
    host.caller = 5;
    // denied on a key that exists
    let r = EvmContractActor::storage_at(
        &mut host,
        evm_actor::codec::GetStorageAtParams { storage_key: key },
    );
    assert_eq!(r, Err(ActorError::PermissionDenied));
    // and on one that does not
    let r = EvmContractActor::storage_at(
        &mut host,
        evm_actor::codec::GetStorageAtParams { storage_key: U256::from_u64(8) },
    );
    assert_eq!(r, Err(ActorError::PermissionDenied));
}

#[test]
fn invoke_without_record_is_missing_state() {
    let mut host = Host::new(1);
    let r = EvmContractActor::invoke_contract(
        &mut host,
        2,
        &Vec::new(),
        success_engine(Vec::new(), Vec::new()),
    );
    assert_eq!(r, Err(ActorError::MissingOrCorruptState));
}

#[test]
fn invocation_fault_propagates_and_commits_nothing() {
    let mut host = deployed_host();
    let key = U256::from_u64(3);
    let engine = Engine {
        writes: vec![(key, U256::from_u64(4))],
        outcome: Ok(Outcome {
            reverted: false,
            status: Status::Fault(ActorError::PermissionDenied),
            output: Vec::new(),
            selfdestruct: None,
        }),
    };
    let r = EvmContractActor::invoke_contract(&mut host, 2, &Vec::new(), engine);
    assert_eq!(r, Err(ActorError::PermissionDenied));
    host.caller = 0;
    let got = EvmContractActor::storage_at(
        &mut host,
        evm_actor::codec::GetStorageAtParams { storage_key: key },
    );
    assert_eq!(got, Err(ActorError::NotFound));
}

#[test]
fn code_reference_is_invariant_across_successful_invocations() {
    let mut host = deployed_host();
    let before = EvmContractActor::bytecode(&mut host).unwrap();
    for i in 0..3u64 {
        let engine = success_engine(vec![0x01], vec![(U256::from_u64(i), U256::from_u64(i + 1))]);
        EvmContractActor::invoke_contract(&mut host, 2, &Vec::new(), engine).unwrap();
    }
    let after = EvmContractActor::bytecode(&mut host).unwrap();
    assert!(before.same_as(&after));
    assert_eq!(after.bytes, vec![0xfe, 0x5b]);
}

#[test]
fn selfdestruct_commits_storage_before_deletion() {
    let mut host = deployed_host();
    let key = U256::from_u64(11);
    let val = U256::from_u64(12);
    let engine = Engine {
        writes: vec![(key, val)],
        outcome: Ok(Outcome {
            reverted: false,
            status: Status::Success,
            output: Vec::new(),
            selfdestruct: Some(99),
        }),
    };
    let r = EvmContractActor::invoke_contract(&mut host, 2, &Vec::new(), engine);
    assert!(r.is_ok());
    assert!(host.deleted);
    host.caller = 0;
    let got = EvmContractActor::storage_at(
        &mut host,
        evm_actor::codec::GetStorageAtParams { storage_key: key },
    );
    assert_eq!(got, Ok(val));
}

#[test]
fn unmapped_method_routes_to_contract_invocation() {
    let mut host = deployed_host();
    let key = U256::from_u64(21);
    let val = U256::from_u64(22);
    let engine = success_engine(vec![0x33, 0x44], vec![(key, val)]);
    let r = EvmContractActor::invoke_method(&mut host, 1000000, &vec![0x09], engine);
    assert_eq!(r.unwrap(), vec![0x33, 0x44]);
    host.caller = 0;
    let got = EvmContractActor::storage_at(
        &mut host,
        evm_actor::codec::GetStorageAtParams { storage_key: key },
    );
    assert_eq!(got, Ok(val));
}

#[test]
fn constructor_storage_writes_are_persisted() {
    let mut host = Host::new(0);
    let key = U256::from_u64(0);
    let val = U256::from_u64(1);
    let engine = success_engine(vec![0xfe], vec![(key, val)]);
    deploy(&mut host, vec![0x00], engine).unwrap();
    let got = EvmContractActor::storage_at(
        &mut host,
        evm_actor::codec::GetStorageAtParams { storage_key: key },
    );
    assert_eq!(got, Ok(val));
}

#[test]
fn dispatch_table_maps_builtin_selectors() {
    assert!(matches!(Method::from_num(0), Some(Method::Constructor)));
    assert!(matches!(Method::from_num(2), Some(Method::InvokeContract)));
    assert!(matches!(Method::from_num(3), Some(Method::GetBytecode)));
    assert!(matches!(Method::from_num(4), Some(Method::GetStorageAt)));
    assert!(Method::from_num(1).is_none());
    assert!(Method::from_num(1000000).is_none());
}
