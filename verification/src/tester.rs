//! The outcome of running a test ROM: it failed to load, or it reported a
//! failure code.

use vstd::prelude::*;
use crate::cartridge_error::{cartridge_error_message, CartridgeError};
use crate::text::{append_decimal, spec_decimal};

verus! {

pub enum TestError {
    CartridgeError(CartridgeError),
    ResultError(u8),
}

/// The message of a test error.
pub open spec fn test_error_message(e: TestError) -> Seq<char> {
    match e {
        TestError::CartridgeError(err) => "CartridgeError: "@ + cartridge_error_message(err),
        TestError::ResultError(code) => "ResultError: test failed with code "@ + spec_decimal(code as nat),
    }
}

impl TestError {
    pub fn get_message(&self) -> (message: String)
        ensures
            message@ == test_error_message(*self),
    {
        match self {
            TestError::CartridgeError(err) => {
                let mut message = String::from_str("CartridgeError: ");
                let inner = err.get_message();
                message.append(inner.as_str());
                message
            },
            TestError::ResultError(code) => {
                let mut message = String::from_str("ResultError: test failed with code ");
                append_decimal(&mut message, *code as u64);
                message
            },
        }
    }
}

impl From<CartridgeError> for TestError {
    fn from(from: CartridgeError) -> (e: Self) {
        TestError::CartridgeError(from)
    }
}

impl vstd::std_specs::convert::FromSpecImpl<CartridgeError> for TestError {
    open spec fn obeys_from_spec() -> bool {
        true
    }

    open spec fn from_spec(v: CartridgeError) -> TestError {
        TestError::CartridgeError(v)
    }
}

} // verus!
