//! What an inheritance plan has to meet before the contract stores it.
//!
//! A plan names beneficiaries, each with a share in percent. The contract
//! keeps digests only of what identifies a beneficiary; the checks here run
//! on the data before it is digested.

use crate::text::str_eq;
use vstd::prelude::*;
use vstd::string::*;

verus! {

/// The longest description of a plan, in bytes.
pub const MAX_DESCRIPTION_LEN: usize = 500;

/// The largest number of beneficiaries of a plan.
pub const MAX_BENEFICIARIES: usize = 10;

/// The length of a claim code, in bytes.
pub const CLAIM_CODE_LEN: usize = 6;

/// How an inheritance is paid out.
#[derive(Debug, Clone, Copy, PartialEq, Eq, Structural)]
pub enum DistributionMethod {
    LumpSum,
    Monthly,
    Quarterly,
    Yearly,
}

/// Why the contract rejects a plan.
#[derive(Debug, Clone, Copy, PartialEq, Eq, Structural)]
pub enum InheritanceError {
    InvalidAssetType,
    InvalidTotalAmount,
    MissingRequiredField,
    TooManyBeneficiaries,
    InvalidClaimCode,
    AllocationPercentageMismatch,
    DescriptionTooLong,
    InvalidBeneficiaryData,
}

/// The keys under which the contract stores its data.
#[derive(Debug, Clone, Copy, PartialEq, Eq, Structural)]
pub enum DataKey {
    NextPlanId,
    Plan(u64),
}

/// The inheritance contract.
#[derive(Debug, Clone, Copy)]
pub struct InheritanceContract {}

/// What a caller hands in for one beneficiary: full name, email, claim
/// code, bank account and share in percent.
pub type BeneficiaryData = (String, String, String, String, u32);

impl InheritanceError {
    /// The number under which the ledger reports the error.
    pub open spec fn number(self) -> int {
        match self {
            InheritanceError::InvalidAssetType => 1,
            InheritanceError::InvalidTotalAmount => 2,
            InheritanceError::MissingRequiredField => 3,
            InheritanceError::TooManyBeneficiaries => 4,
            InheritanceError::InvalidClaimCode => 5,
            InheritanceError::AllocationPercentageMismatch => 6,
            InheritanceError::DescriptionTooLong => 7,
            InheritanceError::InvalidBeneficiaryData => 8,
        }
    }

    pub fn code(&self) -> (code: u32)
        ensures
            code == self.number(),
    {
        match self {
            InheritanceError::InvalidAssetType => 1,
            InheritanceError::InvalidTotalAmount => 2,
            InheritanceError::MissingRequiredField => 3,
            InheritanceError::TooManyBeneficiaries => 4,
            InheritanceError::InvalidClaimCode => 5,
            InheritanceError::AllocationPercentageMismatch => 6,
            InheritanceError::DescriptionTooLong => 7,
            InheritanceError::InvalidBeneficiaryData => 8,
        }
    }
}

/// The length of a text in bytes.
pub open spec fn byte_len(text: Seq<char>) -> nat {
    vstd::utf8::encode_utf8(text).len()
}

/// The shares of the beneficiaries, added up.
pub open spec fn total_allocation(data: Seq<BeneficiaryData>) -> int
    decreases data.len(),
{
    if data.len() == 0 {
        0
    } else {
        total_allocation(data.drop_last()) + data.last().4
    }
}

/// What the contract decides on the inputs of a plan.
pub open spec fn plan_inputs_decision(
    plan_name: Seq<char>,
    description: Seq<char>,
    asset_type: Seq<char>,
    total_amount: u64,
) -> Result<(), InheritanceError> {
    if plan_name.len() == 0 {
        Err(InheritanceError::MissingRequiredField)
    } else if byte_len(description) > MAX_DESCRIPTION_LEN {
        Err(InheritanceError::DescriptionTooLong)
    } else if asset_type != "USDC"@ {
        Err(InheritanceError::InvalidAssetType)
    } else if total_amount == 0 {
        Err(InheritanceError::InvalidTotalAmount)
    } else {
        Ok(())
    }
}

/// What the contract decides on the list of beneficiaries: there are one
/// to ten of them and their shares add up to 100 percent.
pub open spec fn beneficiaries_decision(data: Seq<BeneficiaryData>) -> Result<(), InheritanceError> {
    if data.len() > MAX_BENEFICIARIES {
        Err(InheritanceError::TooManyBeneficiaries)
    } else if data.len() == 0 {
        Err(InheritanceError::MissingRequiredField)
    } else if total_allocation(data) != 100 {
        Err(InheritanceError::AllocationPercentageMismatch)
    } else {
        Ok(())
    }
}

/// What the contract decides on a claim code: it has six bytes.
pub open spec fn claim_code_decision(claim_code: Seq<char>) -> Result<(), InheritanceError> {
    if byte_len(claim_code) != CLAIM_CODE_LEN {
        Err(InheritanceError::InvalidClaimCode)
    } else {
        Ok(())
    }
}

/// What the contract decides on one beneficiary: name, email and bank
/// account are given, and the claim code is valid.
pub open spec fn beneficiary_decision(
    full_name: Seq<char>,
    email: Seq<char>,
    claim_code: Seq<char>,
    bank_account: Seq<char>,
) -> Result<(), InheritanceError> {
    if full_name.len() == 0 || email.len() == 0 || bank_account.len() == 0 {
        Err(InheritanceError::InvalidBeneficiaryData)
    } else {
        claim_code_decision(claim_code)
    }
}

/// What the contract decides on beneficiary `i` of the list.
pub open spec fn beneficiary_decision_at(data: Seq<BeneficiaryData>, i: int) -> Result<
    (),
    InheritanceError,
> {
    beneficiary_decision(data[i].0@, data[i].1@, data[i].2@, data[i].3@)
}

/// The first beneficiary at or after `i` that the contract rejects, with
/// the reason.
pub open spec fn first_rejected(data: Seq<BeneficiaryData>, i: int) -> Result<
    (),
    InheritanceError,
>
    decreases data.len() - i,
{
    if i < 0 || i >= data.len() {
        Ok(())
    } else if beneficiary_decision_at(data, i) is Err {
        beneficiary_decision_at(data, i)
    } else {
        first_rejected(data, i + 1)
    }
}

/// What the contract decides on a plan as a whole: the inputs of the plan,
/// then the list of beneficiaries, then each beneficiary in turn. The asset
/// of a plan is USDC.
pub open spec fn plan_decision(
    plan_name: Seq<char>,
    description: Seq<char>,
    total_amount: u64,
    data: Seq<BeneficiaryData>,
) -> Result<(), InheritanceError> {
    if plan_inputs_decision(plan_name, description, "USDC"@, total_amount) is Err {
        plan_inputs_decision(plan_name, description, "USDC"@, total_amount)
    } else if beneficiaries_decision(data) is Err {
        beneficiaries_decision(data)
    } else {
        first_rejected(data, 0)
    }
}

/// The bytes that are digested in place of a text of `len` bytes: the two
/// low bytes of the length, then the low byte plus one if the text is not
/// empty, then the low byte plus two if it is longer than one byte.
pub open spec fn digest_input(len: u32) -> Seq<u8> {
    let low = (len % 256) as u8;
    let high = ((len / 256) % 256) as u8;
    let first = ((len % 256 + 1) % 256) as u8;
    let second = ((len % 256 + 2) % 256) as u8;
    if len == 0 {
        seq![low, high]
    } else if len == 1 {
        seq![low, high, first]
    } else {
        seq![low, high, first, second]
    }
}

impl InheritanceContract {
    /// The bytes that the contract digests for a text of `len` bytes.
    pub fn hash_input(len: u32) -> (data: Vec<u8>)
        ensures
            data@ == digest_input(len),
    {
        let mut data: Vec<u8> = Vec::new();
        data.push((len % 256) as u8);
        data.push(((len / 256) % 256) as u8);
        if len > 0 {
            data.push(((len % 256 + 1) % 256) as u8);
        }
        if len > 1 {
            data.push(((len % 256 + 2) % 256) as u8);
        }
        assert(data@ =~= digest_input(len));
        data
    }

    /// Checks a claim code before it is digested.
    pub fn check_claim_code(claim_code: &str) -> (r: Result<(), InheritanceError>)
        ensures
            r == claim_code_decision(claim_code@),
    {
        if claim_code.as_bytes().len() != CLAIM_CODE_LEN {
            return Err(InheritanceError::InvalidClaimCode);
        }
        Ok(())
    }

    /// Checks the data of one beneficiary before it is digested.
    pub fn check_beneficiary(full_name: &str, email: &str, claim_code: &str, bank_account: &str) -> (r:
        Result<(), InheritanceError>)
        ensures
            r == beneficiary_decision(full_name@, email@, claim_code@, bank_account@),
    {
        if full_name.is_empty() || email.is_empty() || bank_account.is_empty() {
            return Err(InheritanceError::InvalidBeneficiaryData);
        }
        Self::check_claim_code(claim_code)
    }

    /// Checks the inputs of a plan: a name, a description of at most 500
    /// bytes, USDC as the asset and an amount above zero.
    pub fn validate_plan_inputs(
        plan_name: &str,
        description: &str,
        asset_type: &str,
        total_amount: u64,
    ) -> (r: Result<(), InheritanceError>)
        ensures
            r == plan_inputs_decision(plan_name@, description@, asset_type@, total_amount),
    {
        if plan_name.is_empty() {
            return Err(InheritanceError::MissingRequiredField);
        }
        if description.as_bytes().len() > MAX_DESCRIPTION_LEN {
            return Err(InheritanceError::DescriptionTooLong);
        }
        if !str_eq(asset_type, "USDC") {
            return Err(InheritanceError::InvalidAssetType);
        }
        if total_amount == 0 {
            return Err(InheritanceError::InvalidTotalAmount);
        }
        Ok(())
    }

    /// Checks the list of beneficiaries: one to ten, with shares that add
    /// up to 100 percent.
    pub fn validate_beneficiaries(beneficiaries_data: &Vec<BeneficiaryData>) -> (r: Result<
        (),
        InheritanceError,
    >)
        ensures
            r == beneficiaries_decision(beneficiaries_data@),
    {
        if beneficiaries_data.len() > MAX_BENEFICIARIES {
            return Err(InheritanceError::TooManyBeneficiaries);
        }
        if beneficiaries_data.len() == 0 {
            return Err(InheritanceError::MissingRequiredField);
        }
        let mut total: u64 = 0;
        let mut i: usize = 0;
        assert(beneficiaries_data@.take(0) =~= Seq::<BeneficiaryData>::empty());
        while i < beneficiaries_data.len()
            invariant
                i <= beneficiaries_data.len() <= MAX_BENEFICIARIES,
                total == total_allocation(beneficiaries_data@.take(i as int)),
                total <= i * 0xffff_ffff,
            decreases beneficiaries_data.len() - i,
        {
            let ghost seen = beneficiaries_data@.take(i + 1);
            assert(seen.drop_last() =~= beneficiaries_data@.take(i as int));
            assert(seen.last() == beneficiaries_data@[i as int]);
            total = total + beneficiaries_data[i].4 as u64;
            i = i + 1;
        }
        assert(beneficiaries_data@.take(i as int) =~= beneficiaries_data@);
        if total != 100 {
            return Err(InheritanceError::AllocationPercentageMismatch);
        }
        Ok(())
    }

    /// Checks a plan as a whole, as the contract does before it stores the
    /// plan: the inputs, the list of beneficiaries, then each beneficiary.
    pub fn check_inheritance_plan(
        plan_name: &str,
        description: &str,
        total_amount: u64,
        beneficiaries_data: &Vec<BeneficiaryData>,
    ) -> (r: Result<(), InheritanceError>)
        ensures
            r == plan_decision(plan_name@, description@, total_amount, beneficiaries_data@),
    {
        match Self::validate_plan_inputs(plan_name, description, "USDC", total_amount) {
            Ok(_) => {},
            Err(e) => {
                return Err(e);
            },
        }
        match Self::validate_beneficiaries(beneficiaries_data) {
            Ok(_) => {},
            Err(e) => {
                return Err(e);
            },
        }
        let mut i: usize = 0;
        while i < beneficiaries_data.len()
            invariant
                i <= beneficiaries_data.len(),
                plan_decision(plan_name@, description@, total_amount, beneficiaries_data@)
                    == first_rejected(beneficiaries_data@, i as int),
            decreases beneficiaries_data.len() - i,
        {
            let b = &beneficiaries_data[i];
            let checked = Self::check_beneficiary(
                b.0.as_str(),
                b.1.as_str(),
                b.2.as_str(),
                b.3.as_str(),
            );
            assert(checked == beneficiary_decision_at(beneficiaries_data@, i as int));
            if checked.is_err() {
                return checked;
            }
            i = i + 1;
        }
        Ok(())
    }
}

} // verus!
