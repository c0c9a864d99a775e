//! Round trips and failure paths of the wire-model conversions.

use sync_core::convert::FromModelError;
use sync_core::felt::{felt_to_u128, felt_to_u32, felt_to_u64, Felt};
use sync_core::receipts::{
    DeclareTransactionReceipt, ExecutionResources, ExecutionResult, FeePayment,
    InvokeTransactionReceipt, L1Gas, MsgToL1, PriceUnit, TransactionReceipt,
    TransactionWithReceipt,
};
use sync_core::transactions::{
    DataAvailabilityMode, DeclareTransaction, DeclareTransactionV0, DeclareTransactionV1,
    DeclareTransactionV2, DeclareTransactionV3, DeployAccountTransaction,
    DeployAccountTransactionV1, DeployAccountTransactionV3, DeployTransaction, InvokeTransaction,
    InvokeTransactionV0, InvokeTransactionV1, InvokeTransactionV3, L1HandlerTransaction,
    ResourceBounds, ResourceBoundsMapping, Transaction, TransactionWithHash,
};
use sync_core::wire_receipt;
use sync_core::wire_transaction;

fn f(n: u64) -> Felt {
    Felt::from_u64(n)
}

fn bounds() -> ResourceBoundsMapping {
    ResourceBoundsMapping {
        l1_gas: ResourceBounds {
            max_amount: 1000,
            max_price_per_unit: 77_000_000_000_000_000_000_000u128,
        },
        l2_gas: ResourceBounds {
            max_amount: 0,
            max_price_per_unit: 0,
        },
    }
}

fn zero_resources() -> ExecutionResources {
    ExecutionResources {
        steps: 12345,
        memory_holes: Some(7),
        range_check_builtin_applications: Some(3),
        pedersen_builtin_applications: None,
        poseidon_builtin_applications: Some(1),
        ec_op_builtin_applications: None,
        ecdsa_builtin_applications: None,
        bitwise_builtin_applications: Some(2),
        keccak_builtin_applications: None,
        segment_arena_builtin: None,
        data_availability: L1Gas {
            l1_gas: 0,
            l1_data_gas: 0,
        },
        total_gas_consumed: L1Gas {
            l1_gas: 0,
            l1_data_gas: 0,
        },
    }
}

fn receipt_for(hash: Felt) -> TransactionReceipt {
    TransactionReceipt::Invoke(InvokeTransactionReceipt {
        transaction_hash: hash,
        actual_fee: FeePayment {
            amount: f(999),
            unit: PriceUnit::Fri,
        },
        messages_sent: vec![MsgToL1 {
            from_address: f(1),
            to_address: f(2),
            payload: vec![f(3), f(4)],
        }],
        events: vec![],
        execution_resources: zero_resources(),
        execution_result: ExecutionResult::Reverted {
            reason: "out of gas".to_string(),
        },
    })
}

fn round_trip_tx(tx: Transaction) {
    let wire = tx.clone().to_model();
    let back = wire.parse_model().expect("well-formed wire transaction");
    assert_eq!(back, tx);
}

#[test]
fn round_trip_invoke_v0() {
    round_trip_tx(Transaction::Invoke(InvokeTransaction::V0(InvokeTransactionV0 {
        max_fee: f(10),
        signature: vec![f(11), f(12)],
        contract_address: f(13),
        entry_point_selector: f(14),
        calldata: vec![f(15)],
    })));
}

#[test]
fn round_trip_invoke_v1() {
    round_trip_tx(Transaction::Invoke(InvokeTransaction::V1(InvokeTransactionV1 {
        sender_address: f(20),
        calldata: vec![],
        max_fee: f(21),
        signature: vec![f(22)],
        nonce: f(23),
    })));
}

#[test]
fn round_trip_invoke_v3() {
    round_trip_tx(Transaction::Invoke(InvokeTransaction::V3(InvokeTransactionV3 {
        sender_address: f(30),
        calldata: vec![f(31)],
        signature: vec![f(32), f(33)],
        nonce: f(34),
        resource_bounds: bounds(),
        tip: 5,
        paymaster_data: vec![f(35)],
        account_deployment_data: vec![],
        nonce_data_availability_mode: DataAvailabilityMode::L1,
        fee_data_availability_mode: DataAvailabilityMode::L2,
    })));
}

#[test]
fn round_trip_declare_v0_to_v3() {
    round_trip_tx(Transaction::Declare(DeclareTransaction::V0(DeclareTransactionV0 {
        sender_address: f(1),
        max_fee: f(2),
        signature: vec![f(3)],
        class_hash: f(4),
    })));
    round_trip_tx(Transaction::Declare(DeclareTransaction::V1(DeclareTransactionV1 {
        sender_address: f(1),
        max_fee: f(2),
        signature: vec![f(3)],
        nonce: f(5),
        class_hash: f(4),
    })));
    round_trip_tx(Transaction::Declare(DeclareTransaction::V2(DeclareTransactionV2 {
        sender_address: f(1),
        compiled_class_hash: f(6),
        max_fee: f(2),
        signature: vec![f(3)],
        nonce: f(5),
        class_hash: f(4),
    })));
    round_trip_tx(Transaction::Declare(DeclareTransaction::V3(DeclareTransactionV3 {
        sender_address: f(1),
        compiled_class_hash: f(6),
        signature: vec![f(3)],
        nonce: f(5),
        class_hash: f(4),
        resource_bounds: bounds(),
        tip: 0,
        paymaster_data: vec![],
        account_deployment_data: vec![f(7)],
        nonce_data_availability_mode: DataAvailabilityMode::L2,
        fee_data_availability_mode: DataAvailabilityMode::L1,
    })));
}

#[test]
fn round_trip_deploy() {
    round_trip_tx(Transaction::Deploy(DeployTransaction {
        version: Felt::from_u64(1),
        contract_address_salt: f(40),
        constructor_calldata: vec![f(41), f(42)],
        class_hash: f(43),
    }));
}

#[test]
fn round_trip_deploy_account_v1_v3() {
    round_trip_tx(Transaction::DeployAccount(DeployAccountTransaction::V1(
        DeployAccountTransactionV1 {
            max_fee: f(50),
            signature: vec![f(51)],
            nonce: f(52),
            contract_address_salt: f(53),
            constructor_calldata: vec![f(54)],
            class_hash: f(55),
        },
    )));
    round_trip_tx(Transaction::DeployAccount(DeployAccountTransaction::V3(
        DeployAccountTransactionV3 {
            signature: vec![],
            nonce: f(52),
            contract_address_salt: f(53),
            constructor_calldata: vec![f(54)],
            class_hash: f(55),
            resource_bounds: bounds(),
            tip: 9,
            paymaster_data: vec![f(56)],
            nonce_data_availability_mode: DataAvailabilityMode::L1,
            fee_data_availability_mode: DataAvailabilityMode::L1,
        },
    )));
}

#[test]
fn round_trip_l1_handler() {
    round_trip_tx(Transaction::L1Handler(L1HandlerTransaction {
        version: Felt::zero(),
        nonce: 77,
        contract_address: f(60),
        entry_point_selector: f(61),
        calldata: vec![f(62)],
    }));
}

#[test]
fn round_trip_transaction_with_receipt() {
    let tx = Transaction::Invoke(InvokeTransaction::V1(InvokeTransactionV1 {
        sender_address: f(20),
        calldata: vec![f(1)],
        max_fee: f(21),
        signature: vec![f(22)],
        nonce: f(23),
    }));
    let twr = TransactionWithReceipt {
        transaction: tx,
        receipt: receipt_for(f(12345)),
    };
    let wire = twr.clone().to_model();
    let back = TransactionWithReceipt::parse_model(wire).expect("well-formed wire value");
    assert_eq!(back, twr);
}

#[test]
fn round_trip_declare_receipt() {
    let twr = TransactionWithReceipt {
        transaction: Transaction::Declare(DeclareTransaction::V0(DeclareTransactionV0 {
            sender_address: f(1),
            max_fee: f(2),
            signature: vec![],
            class_hash: f(4),
        })),
        receipt: TransactionReceipt::Declare(DeclareTransactionReceipt {
            transaction_hash: f(500),
            actual_fee: FeePayment {
                amount: f(1),
                unit: PriceUnit::Wei,
            },
            messages_sent: vec![],
            events: vec![],
            execution_resources: zero_resources(),
            execution_result: ExecutionResult::Succeeded,
        }),
    };
    let back =
        TransactionWithReceipt::parse_model(twr.clone().to_model()).expect("well-formed value");
    assert_eq!(back, twr);
}

#[test]
fn missing_transaction_field() {
    let m = wire_transaction::Transaction {
        transaction_hash: Some(f(1)),
        txn: None,
    };
    let err = TransactionWithHash::parse_model(m).unwrap_err();
    assert_eq!(
        err,
        FromModelError::MissingField("Transaction::transaction".to_string())
    );
}

#[test]
fn missing_transaction_hash_field() {
    let m = wire_transaction::Transaction {
        transaction_hash: None,
        txn: Some(wire_transaction::Txn::InvokeV0(wire_transaction::InvokeV0 {
            max_fee: None,
            signature: None,
            address: None,
            entry_point_selector: None,
            calldata: vec![],
        })),
    };
    let err = TransactionWithHash::parse_model(m).unwrap_err();
    assert_eq!(
        err,
        FromModelError::MissingField("Transaction::transaction_hash".to_string())
    );
}

#[test]
fn invalid_volition_domain_code() {
    let m = wire_transaction::Txn::InvokeV3(wire_transaction::InvokeV3 {
        sender: None,
        signature: None,
        calldata: vec![],
        resource_bounds: None,
        tip: 0,
        paymaster_data: vec![],
        account_deployment_data: vec![],
        nonce_data_availability_mode: 9,
        fee_data_availability_mode: 0,
        nonce: None,
    });
    let err = m.parse_model().unwrap_err();
    assert_eq!(
        err,
        FromModelError::InvalidEnumVariant("VolitionDomain".to_string(), 9)
    );
}

#[test]
fn invalid_resource_limit() {
    let m = wire_transaction::Txn::DeclareV3(wire_transaction::DeclareV3 {
        sender: None,
        compiled_class_hash: None,
        signature: None,
        nonce: None,
        class_hash: None,
        resource_bounds: Some(wire_transaction::ResourceBounds {
            l1_gas: Some(wire_transaction::ResourceLimits {
                max_amount: Some(Felt { lo: 1 << 70, hi: 0 }),
                max_price_per_unit: None,
            }),
            l2_gas: None,
        }),
        tip: 0,
        paymaster_data: vec![],
        account_deployment_data: vec![],
        nonce_data_availability_mode: 0,
        fee_data_availability_mode: 0,
    });
    let err = m.parse_model().unwrap_err();
    assert_eq!(
        err,
        FromModelError::InvalidField("ResourceLimits::max_amount".to_string())
    );
}

#[test]
fn invalid_l1_handler_nonce() {
    let m = wire_transaction::L1HandlerV0 {
        nonce: Some(Felt {
            lo: u128::from(u64::MAX) + 1,
            hi: 0,
        }),
        address: None,
        entry_point_selector: None,
        calldata: vec![],
    };
    let err = m.parse_model().unwrap_err();
    assert_eq!(
        err,
        FromModelError::InvalidField("L1HandlerV0::nonce".to_string())
    );
}

#[test]
fn missing_receipt_type() {
    let err = wire_receipt::Receipt { kind: None }
        .parse_model(f(1))
        .unwrap_err();
    assert_eq!(err, FromModelError::MissingField("Receipt::type".to_string()));
}

#[test]
fn invalid_receipt_gas_felt() {
    let m = wire_receipt::Receipt {
        kind: Some(wire_receipt::Type::Invoke(wire_receipt::Invoke {
            common: Some(wire_receipt::Common {
                actual_fee: None,
                price_unit: 0,
                messages_sent: vec![],
                execution_resources: Some(wire_receipt::ExecutionResources {
                    builtins: None,
                    steps: 0,
                    memory_holes: 0,
                    l1_gas: Some(Felt { lo: 0, hi: 1 }),
                    l1_data_gas: None,
                    total_l1_gas: None,
                }),
                revert_reason: None,
            }),
        })),
    };
    let err = m.parse_model(f(1)).unwrap_err();
    assert_eq!(
        err,
        FromModelError::InvalidField("ExecutionResources::l1_gas".to_string())
    );
}

#[test]
fn omitted_fields_default() {
    let m = wire_transaction::Txn::InvokeV0(wire_transaction::InvokeV0 {
        max_fee: None,
        signature: None,
        address: None,
        entry_point_selector: None,
        calldata: vec![f(9)],
    });
    let parsed = m.parse_model().expect("total for this variant");
    match parsed {
        Transaction::Invoke(InvokeTransaction::V0(tx)) => {
            assert_eq!(tx.max_fee, Felt::zero());
            assert_eq!(tx.signature, Vec::<Felt>::new());
            assert_eq!(tx.contract_address, Felt::zero());
            assert_eq!(tx.calldata, vec![f(9)]);
        }
        other => panic!("wrong variant: {:?}", other),
    }
}

#[test]
fn felt_range_reads() {
    assert_eq!(felt_to_u64(&Felt::from_u64(u64::MAX)), Ok(u64::MAX));
    assert_eq!(
        felt_to_u64(&Felt {
            lo: u128::from(u64::MAX) + 1,
            hi: 0
        }),
        Err(())
    );
    assert_eq!(felt_to_u32(&Felt::from_u64(u64::from(u32::MAX))), Ok(u32::MAX));
    assert_eq!(felt_to_u32(&Felt::from_u64(u64::from(u32::MAX) + 1)), Err(()));
    assert_eq!(felt_to_u128(&Felt::from_u128(5)), Ok(5));
    assert_eq!(felt_to_u128(&Felt { lo: 0, hi: 1 }), Err(()));
    assert!(Felt::zero().is_zero());
    assert!(!f(3).is_zero());
}
