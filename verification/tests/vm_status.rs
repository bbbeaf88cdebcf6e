use diem_core::vm_status::{
    abort_explanation_query, abort_location_text, vm_status_view_from_kept_vm_status,
    AbortLocation, ErrorContext, ErrorDescription, KeptVMStatus, ModuleId,
    MoveAbortExplanationView, VMStatusView,
};

fn diem_account() -> ModuleId {
    let mut address = [0u8; 16];
    address[15] = 1;
    ModuleId { address, name: "DiemAccount".to_string() }
}

fn context() -> ErrorContext {
    ErrorContext {
        category: ErrorDescription {
            code_name: "LIMIT_EXCEEDED".to_string(),
            code_description: "A limit was exceeded".to_string(),
        },
        reason: ErrorDescription {
            code_name: "EINSUFFICIENT_BALANCE".to_string(),
            code_description: "Not enough coins".to_string(),
        },
    }
}

#[test]
fn test_location_text() {
    assert_eq!(abort_location_text(&AbortLocation::Script), "Script");
    assert_eq!(
        abort_location_text(&AbortLocation::Module(diem_account())),
        "00000000000000000000000000000001::DiemAccount"
    );
    let id = ModuleId { address: [0xAB; 16], name: "M".to_string() };
    assert_eq!(
        abort_location_text(&AbortLocation::Module(id)),
        "ABABABABABABABABABABABABABABABAB::M"
    );
}

#[test]
fn test_simple_statuses() {
    assert_eq!(
        vm_status_view_from_kept_vm_status(&KeptVMStatus::Executed, None),
        VMStatusView::Executed
    );
    assert_eq!(
        vm_status_view_from_kept_vm_status(&KeptVMStatus::OutOfGas, Some(context())),
        VMStatusView::OutOfGas
    );
    assert_eq!(
        vm_status_view_from_kept_vm_status(&KeptVMStatus::MiscellaneousError, None),
        VMStatusView::MiscellaneousError
    );
}

#[test]
fn test_move_abort_in_module_is_explained() {
    let status = KeptVMStatus::MoveAbort(AbortLocation::Module(diem_account()), 1288);
    let (id, code) = abort_explanation_query(&status).unwrap();
    assert_eq!(*id, diem_account());
    assert_eq!(code, 1288);
    assert_eq!(
        vm_status_view_from_kept_vm_status(&status, Some(context())),
        VMStatusView::MoveAbort {
            location: "00000000000000000000000000000001::DiemAccount".to_string(),
            abort_code: 1288,
            explanation: Some(MoveAbortExplanationView {
                category: "LIMIT_EXCEEDED".to_string(),
                category_description: "A limit was exceeded".to_string(),
                reason: "EINSUFFICIENT_BALANCE".to_string(),
                reason_description: "Not enough coins".to_string(),
            }),
        }
    );
    assert_eq!(
        vm_status_view_from_kept_vm_status(&status, None),
        VMStatusView::MoveAbort {
            location: "00000000000000000000000000000001::DiemAccount".to_string(),
            abort_code: 1288,
            explanation: None,
        }
    );
}

#[test]
fn test_move_abort_in_script_has_no_explanation() {
    let status = KeptVMStatus::MoveAbort(AbortLocation::Script, 7);
    assert!(abort_explanation_query(&status).is_none());
    assert_eq!(
        vm_status_view_from_kept_vm_status(&status, Some(context())),
        VMStatusView::MoveAbort { location: "Script".to_string(), abort_code: 7, explanation: None }
    );
}

#[test]
fn test_execution_failure() {
    let status = KeptVMStatus::ExecutionFailure {
        location: AbortLocation::Module(diem_account()),
        function: 3,
        code_offset: 12,
    };
    assert!(abort_explanation_query(&status).is_none());
    assert_eq!(
        vm_status_view_from_kept_vm_status(&status, None),
        VMStatusView::ExecutionFailure {
            location: "00000000000000000000000000000001::DiemAccount".to_string(),
            function_index: 3,
            code_offset: 12,
        }
    );
}
