use inheritx_backend::inheritance_plan::{
    BeneficiaryData, DataKey, DistributionMethod, InheritanceContract, InheritanceError,
};

fn beneficiary(name: &str, email: &str, code: &str, account: &str, share: u32) -> BeneficiaryData {
    (name.to_string(), email.to_string(), code.to_string(), account.to_string(), share)
}

#[test]
fn test_hash_claim_code_valid() {
    let result = InheritanceContract::check_claim_code("123456");
    assert!(result.is_ok());
}

#[test]
fn test_hash_claim_code_invalid_length() {
    let result = InheritanceContract::check_claim_code("12345");
    assert!(result.is_err());
    assert_eq!(result.err().unwrap(), InheritanceError::InvalidClaimCode);

    let result = InheritanceContract::check_claim_code("1234567");
    assert!(result.is_err());
    assert_eq!(result.err().unwrap(), InheritanceError::InvalidClaimCode);
}

#[test]
fn test_validate_plan_inputs() {
    let valid_name = "Valid Plan";
    let valid_description = "Valid description";
    let asset_type = "USDC";
    let valid_amount = 1000000;

    let result = InheritanceContract::validate_plan_inputs(
        valid_name,
        valid_description,
        asset_type,
        valid_amount,
    );
    assert!(result.is_ok());

    let result =
        InheritanceContract::validate_plan_inputs("", valid_description, asset_type, valid_amount);
    assert!(result.is_err());
    assert_eq!(result.err().unwrap(), InheritanceError::MissingRequiredField);

    let result =
        InheritanceContract::validate_plan_inputs(valid_name, valid_description, asset_type, 0);
    assert!(result.is_err());
    assert_eq!(result.err().unwrap(), InheritanceError::InvalidTotalAmount);
}

#[test]
fn test_validate_beneficiaries() {
    let valid_beneficiaries = vec![
        beneficiary("John", "john@example.com", "123456", "123456789", 50),
        beneficiary("Jane", "jane@example.com", "654321", "987654321", 50),
    ];
    let result = InheritanceContract::validate_beneficiaries(&valid_beneficiaries);
    assert!(result.is_ok());

    let empty_beneficiaries: Vec<BeneficiaryData> = Vec::new();
    let result = InheritanceContract::validate_beneficiaries(&empty_beneficiaries);
    assert!(result.is_err());
    assert_eq!(result.err().unwrap(), InheritanceError::MissingRequiredField);

    let invalid_allocation = vec![
        beneficiary("John", "john@example.com", "123456", "123456789", 60),
        beneficiary("Jane", "jane@example.com", "654321", "987654321", 50),
    ];
    let result = InheritanceContract::validate_beneficiaries(&invalid_allocation);
    assert!(result.is_err());
    assert_eq!(result.err().unwrap(), InheritanceError::AllocationPercentageMismatch);
}

#[test]
fn test_create_beneficiary_invalid_data() {
    let result =
        InheritanceContract::check_beneficiary("", "john@example.com", "123456", "1234567890123456");
    assert!(result.is_err());
    assert_eq!(result.err().unwrap(), InheritanceError::InvalidBeneficiaryData);

    let result = InheritanceContract::check_beneficiary(
        "John Doe",
        "john@example.com",
        "12345",
        "1234567890123456",
    );
    assert!(result.is_err());
    assert_eq!(result.err().unwrap(), InheritanceError::InvalidClaimCode);
}

#[test]
fn test_create_inheritance_plan_integration_success() {
    let plan_name = "Integration Test Plan";
    let description = "A comprehensive integration test";
    let asset_type = "USDC";
    let total_amount = 2000000u64;

    let beneficiaries_data = vec![
        beneficiary("Alice Johnson", "alice@example.com", "111111", "1111111111111111", 40),
        beneficiary("Bob Smith", "bob@example.com", "222222", "2222222222222222", 30),
        beneficiary("Charlie Brown", "charlie@example.com", "333333", "3333333333333333", 30),
    ];

    let plan_result =
        InheritanceContract::validate_plan_inputs(plan_name, description, asset_type, total_amount);
    assert!(plan_result.is_ok());

    let beneficiaries_result = InheritanceContract::validate_beneficiaries(&beneficiaries_data);
    assert!(beneficiaries_result.is_ok());

    let checked = InheritanceContract::check_beneficiary(
        "Alice Johnson",
        "alice@example.com",
        "111111",
        "1111111111111111",
    );
    assert!(checked.is_ok());
    assert!(InheritanceContract::check_inheritance_plan(
        plan_name,
        description,
        total_amount,
        &beneficiaries_data
    )
    .is_ok());
}

#[test]
fn test_create_inheritance_plan_integration_validation_failure() {
    let result = InheritanceContract::validate_plan_inputs("", "Test", "USDC", 1000000);
    assert!(result.is_err());
    assert_eq!(result.err().unwrap(), InheritanceError::MissingRequiredField);
}

#[test]
fn test_create_inheritance_plan_integration_allocation_failure() {
    let beneficiaries_data = vec![
        beneficiary("John", "john@example.com", "123456", "123456789", 50),
        beneficiary("Jane", "jane@example.com", "654321", "987654321", 40),
    ];
    let result = InheritanceContract::validate_beneficiaries(&beneficiaries_data);
    assert!(result.is_err());
    assert_eq!(result.err().unwrap(), InheritanceError::AllocationPercentageMismatch);
}

#[test]
fn test_create_inheritance_plan_integration_multiple_plans() {
    let result1 = InheritanceContract::validate_plan_inputs(
        "First Plan",
        "First test plan",
        "USDC",
        1000000,
    );
    assert!(result1.is_ok());

    let beneficiaries1 = vec![beneficiary("John", "john@example.com", "123456", "123456789", 100)];
    let beneficiaries_result1 = InheritanceContract::validate_beneficiaries(&beneficiaries1);
    assert!(beneficiaries_result1.is_ok());

    let result2 = InheritanceContract::validate_plan_inputs(
        "Second Plan",
        "Second test plan",
        "USDC",
        2000000,
    );
    assert!(result2.is_ok());

    let beneficiaries2 = vec![beneficiary("Jane", "jane@example.com", "654321", "987654321", 100)];
    let beneficiaries_result2 = InheritanceContract::validate_beneficiaries(&beneficiaries2);
    assert!(beneficiaries_result2.is_ok());
}

#[test]
fn plan_inputs_fail_in_order() {
    let long = "x".repeat(501);
    assert_eq!(
        InheritanceContract::validate_plan_inputs("", &long, "XLM", 0),
        Err(InheritanceError::MissingRequiredField)
    );
    assert_eq!(
        InheritanceContract::validate_plan_inputs("Plan", &long, "XLM", 0),
        Err(InheritanceError::DescriptionTooLong)
    );
    assert_eq!(
        InheritanceContract::validate_plan_inputs("Plan", &"x".repeat(500), "XLM", 0),
        Err(InheritanceError::InvalidAssetType)
    );
    assert_eq!(
        InheritanceContract::validate_plan_inputs("Plan", "", "usdc", 1),
        Err(InheritanceError::InvalidAssetType)
    );
    // The limit is in bytes: 250 two-byte letters are 500 bytes.
    assert!(InheritanceContract::validate_plan_inputs("Plan", &"é".repeat(250), "USDC", 1).is_ok());
    assert_eq!(
        InheritanceContract::validate_plan_inputs("Plan", &"é".repeat(251), "USDC", 1),
        Err(InheritanceError::DescriptionTooLong)
    );
}

#[test]
fn beneficiaries_are_counted_and_summed() {
    let eleven: Vec<BeneficiaryData> =
        (0..11).map(|_| beneficiary("N", "e@x", "123456", "1", 10)).collect();
    assert_eq!(
        InheritanceContract::validate_beneficiaries(&eleven),
        Err(InheritanceError::TooManyBeneficiaries)
    );
    let ten: Vec<BeneficiaryData> =
        (0..10).map(|_| beneficiary("N", "e@x", "123456", "1", 10)).collect();
    assert!(InheritanceContract::validate_beneficiaries(&ten).is_ok());
    // Shares that would wrap around 32 bits to 100 are no match.
    let wrapping = vec![
        beneficiary("A", "a@x", "123456", "1", u32::MAX),
        beneficiary("B", "b@x", "123456", "1", 101),
    ];
    assert_eq!(
        InheritanceContract::validate_beneficiaries(&wrapping),
        Err(InheritanceError::AllocationPercentageMismatch)
    );
}

#[test]
fn a_plan_is_checked_as_a_whole() {
    let good = vec![
        beneficiary("John", "john@example.com", "123456", "123456789", 50),
        beneficiary("Jane", "jane@example.com", "654321", "987654321", 50),
    ];
    assert!(InheritanceContract::check_inheritance_plan("Plan", "About", 1, &good).is_ok());
    assert_eq!(
        InheritanceContract::check_inheritance_plan("", "About", 1, &good),
        Err(InheritanceError::MissingRequiredField)
    );
    assert_eq!(
        InheritanceContract::check_inheritance_plan("Plan", "About", 0, &good),
        Err(InheritanceError::InvalidTotalAmount)
    );
    let second_bad = vec![
        beneficiary("John", "john@example.com", "123456", "123456789", 50),
        beneficiary("Jane", "jane@example.com", "65432", "987654321", 50),
    ];
    assert_eq!(
        InheritanceContract::check_inheritance_plan("Plan", "About", 1, &second_bad),
        Err(InheritanceError::InvalidClaimCode)
    );
    let both_bad = vec![
        beneficiary("John", "", "12345", "123456789", 50),
        beneficiary("Jane", "jane@example.com", "65432", "987654321", 50),
    ];
    assert_eq!(
        InheritanceContract::check_inheritance_plan("Plan", "About", 1, &both_bad),
        Err(InheritanceError::InvalidBeneficiaryData)
    );
}

#[test]
fn digest_input_depends_on_the_length_alone() {
    assert_eq!(InheritanceContract::hash_input(0), vec![0, 0]);
    assert_eq!(InheritanceContract::hash_input(1), vec![1, 0, 2]);
    assert_eq!(InheritanceContract::hash_input(4), vec![4, 0, 5, 6]);
    assert_eq!(InheritanceContract::hash_input(9), vec![9, 0, 10, 11]);
    assert_eq!(InheritanceContract::hash_input(255), vec![255, 0, 0, 1]);
    assert_eq!(InheritanceContract::hash_input(256), vec![0, 1, 1, 2]);
    assert_eq!(InheritanceContract::hash_input(65_536 + 254), vec![254, 0, 255, 0]);
}

#[test]
fn errors_and_keys_of_the_contract() {
    assert_eq!(InheritanceError::InvalidAssetType.code(), 1);
    assert_eq!(InheritanceError::InvalidTotalAmount.code(), 2);
    assert_eq!(InheritanceError::MissingRequiredField.code(), 3);
    assert_eq!(InheritanceError::TooManyBeneficiaries.code(), 4);
    assert_eq!(InheritanceError::InvalidClaimCode.code(), 5);
    assert_eq!(InheritanceError::AllocationPercentageMismatch.code(), 6);
    assert_eq!(InheritanceError::DescriptionTooLong.code(), 7);
    assert_eq!(InheritanceError::InvalidBeneficiaryData.code(), 8);
    assert_ne!(DataKey::NextPlanId, DataKey::Plan(1));
    assert_eq!(DataKey::Plan(1), DataKey::Plan(1));
    assert_ne!(DistributionMethod::LumpSum, DistributionMethod::Monthly);
}
