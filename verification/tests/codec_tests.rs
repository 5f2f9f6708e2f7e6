use evm_actor::actor::EvmContractActor;
use evm_actor::bytecode::Bytecode;
use evm_actor::codec::{
    decode_deploy_params, decode_storage_params, encode_deploy_params, encode_storage_params,
    encode_storage_result, ConstructorParams, GetStorageAtParams,
};
use evm_actor::engine::{Engine, Outcome, Status};
use evm_actor::error::ActorError;
use evm_actor::host::Host;
use evm_actor::u256::{u256_from_bytes, u256_to_bytes, U256};

fn success_engine(output: Vec<u8>) -> Engine {
    Engine {
        writes: Vec::new(),
        outcome: Ok(Outcome {
            reverted: false,
            status: Status::Success,
            output,
            selfdestruct: None,
        }),
    }
}

#[test]
fn u256_byte_round_trip() {
    let x = U256 { w0: 1, w1: 2, w2: 3, w3: u64::MAX };
    let bytes = u256_to_bytes(&x);
    assert_eq!(bytes.len(), 32);
    let y = u256_from_bytes(&bytes);
    assert_eq!(x, y);
}

#[test]
fn u256_serializes_least_significant_limb_first() {
    let x = U256::from_u64(0x0102030405060708);
    let bytes = u256_to_bytes(&x);
    assert_eq!(&bytes[0..8], &[0x08, 0x07, 0x06, 0x05, 0x04, 0x03, 0x02, 0x01]);
    assert!(bytes[8..].iter().all(|b| *b == 0));
}

#[test]
fn deploy_params_wire_round_trip() {
    let p = ConstructorParams { bytecode: vec![0x60, 0x01, 0x00] };
    let wire = encode_deploy_params(&p).expect("short code encodes");
    let back = decode_deploy_params(&wire).expect("wire decodes");
    assert_eq!(back.bytecode, vec![0x60, 0x01, 0x00]);
}

#[test]
fn deploy_params_wire_round_trip_long_form() {
    let code = vec![0x5bu8; 300];
    let p = ConstructorParams { bytecode: code.clone() };
    let wire = encode_deploy_params(&p).expect("encodes");
    assert_eq!(wire[0], 0x81);
    assert_eq!(wire[1], 0x59);
    let back = decode_deploy_params(&wire).expect("decodes");
    assert_eq!(back.bytecode, code);
}

#[test]
fn deploy_params_exact_wire_bytes() {
    let p = ConstructorParams { bytecode: vec![0xab] };
    let wire = encode_deploy_params(&p).unwrap();
    assert_eq!(wire, vec![0x81, 0x41, 0xab]);
}

#[test]
fn storage_params_wire_round_trip() {
    let p = GetStorageAtParams { storage_key: U256 { w0: 9, w1: 8, w2: 7, w3: 6 } };
    let wire = encode_storage_params(&p);
    assert_eq!(wire[0], 0x81);
    assert_eq!(wire[1], 0x58);
    assert_eq!(wire[2], 32);
    assert_eq!(wire.len(), 35);
    let back = decode_storage_params(&wire).expect("wire decodes");
    assert_eq!(back.storage_key, p.storage_key);
}

#[test]
fn malformed_wire_is_rejected() {
    assert!(decode_deploy_params(&Vec::new()).is_none());
    assert!(decode_deploy_params(&vec![0x82, 0x41, 0x00]).is_none());
    assert!(decode_deploy_params(&vec![0x81, 0x42, 0x00]).is_none());
    // a long-form header for a length that has a shorter form is rejected
    assert!(decode_deploy_params(&vec![0x81, 0x58, 0x01, 0x00]).is_none());
    assert!(decode_storage_params(&vec![0x81, 0x41, 0x00]).is_none());
}

#[test]
fn jumpdest_on_instruction_boundary_is_valid() {
    // stop, marker: position 1 is a boundary
    let program = Bytecode::new(&vec![0x00, 0x5b]).unwrap();
    assert!(!program.is_valid_jumpdest(0));
    assert!(program.is_valid_jumpdest(1));
}

#[test]
fn jumpdest_inside_push_data_is_invalid() {
    // push1 0x5b: the marker byte is immediate data, not an instruction
    let program = Bytecode::new(&vec![0x60, 0x5b, 0x5b]).unwrap();
    assert!(!program.is_valid_jumpdest(1));
    assert!(program.is_valid_jumpdest(2));
    // push2 swallows two bytes
    let program = Bytecode::new(&vec![0x61, 0x5b, 0x5b, 0x5b]).unwrap();
    assert!(!program.is_valid_jumpdest(1));
    assert!(!program.is_valid_jumpdest(2));
    assert!(program.is_valid_jumpdest(3));
}

#[test]
fn push32_swallows_thirty_two_bytes() {
    let mut code = vec![0x7f];
    code.extend(std::iter::repeat(0x5b).take(32));
    code.push(0x5b);
    let program = Bytecode::new(&code).unwrap();
    for i in 1..33 {
        assert!(!program.is_valid_jumpdest(i));
    }
    assert!(program.is_valid_jumpdest(33));
}

#[test]
fn dispatch_deploys_with_wire_parameters() {
    let mut host = Host::new(1);
    let p = ConstructorParams { bytecode: vec![0x00] };
    let wire = encode_deploy_params(&p).unwrap();
    let r = EvmContractActor::invoke_method(&mut host, 0, &wire, success_engine(vec![0xfe]));
    assert_eq!(r.unwrap(), Vec::<u8>::new());
    assert!(host.state.is_some());
}

#[test]
fn dispatch_rejects_undecodable_deploy_parameters() {
    let mut host = Host::new(1);
    let r = EvmContractActor::invoke_method(
        &mut host,
        0,
        &vec![0xff, 0xff],
        success_engine(vec![0xfe]),
    );
    assert_eq!(r, Err(ActorError::InvalidInput));
    assert!(host.state.is_none());
}

#[test]
fn dispatch_returns_wire_encoded_code_reference() {
    let mut host = Host::new(1);
    let p = ConstructorParams { bytecode: vec![0x00] };
    let wire = encode_deploy_params(&p).unwrap();
    EvmContractActor::invoke_method(&mut host, 0, &wire, success_engine(vec![0xfe])).unwrap();
    let r = EvmContractActor::invoke_method(&mut host, 3, &Vec::new(), success_engine(Vec::new()));
    // a byte-string item holding the one-byte deployed code
    assert_eq!(r.unwrap(), vec![0x41, 0xfe]);
}

#[test]
fn dispatch_reads_storage_with_wire_parameters() {
    let mut host = Host::new(0);
    let p = ConstructorParams { bytecode: vec![0x00] };
    let wire = encode_deploy_params(&p).unwrap();
    EvmContractActor::invoke_method(&mut host, 0, &wire, success_engine(vec![0xfe])).unwrap();
    let key = U256::from_u64(5);
    let val = U256::from_u64(17);
    let engine = Engine {
        writes: vec![(key, val)],
        outcome: Ok(Outcome {
            reverted: false,
            status: Status::Success,
            output: Vec::new(),
            selfdestruct: None,
        }),
    };
    EvmContractActor::invoke_method(&mut host, 2, &Vec::new(), engine).unwrap();
    let params = encode_storage_params(&GetStorageAtParams { storage_key: key });
    let r = EvmContractActor::invoke_method(&mut host, 4, &params, success_engine(Vec::new()));
    assert_eq!(r.unwrap(), encode_storage_result(&val));
}

#[test]
fn dispatch_rejects_undecodable_storage_parameters() {
    let mut host = Host::new(0);
    let r = EvmContractActor::invoke_method(
        &mut host,
        4,
        &vec![0x01],
        success_engine(Vec::new()),
    );
    assert_eq!(r, Err(ActorError::InvalidInput));
}

#[test]
fn error_kinds_carry_their_exit_codes() {
    assert_eq!(ActorError::InvalidInput.exit_code(), 16);
    assert_eq!(ActorError::NotFound.exit_code(), 17);
    assert_eq!(ActorError::PermissionDenied.exit_code(), 18);
    assert_eq!(ActorError::MissingOrCorruptState.exit_code(), 20);
    assert_eq!(ActorError::ContractReverted.exit_code(), 27);
}
