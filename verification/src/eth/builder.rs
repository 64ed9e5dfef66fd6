//! Building a transaction field by field.

use crate::eth::bigint::BigInt;
use crate::eth::eip_155_transaction::{EthLegacyEip155TxArgs, TxView};
use crate::eth::types::{EthAddress, EthChainId, Message};
use vstd::prelude::*;

verus! {

/// A transaction in the making. The signature is not set here.
#[derive(Debug)]
pub struct EthLegacyEip155TxArgsBuilder {
    chain_id: Option<EthChainId>,
    nonce: Option<u64>,
    gas_price: Option<BigInt>,
    gas_limit: Option<u64>,
    to: Option<Option<EthAddress>>,
    value: Option<BigInt>,
    input: Option<Vec<u8>>,
}

/// The fields that are set.
pub struct BuilderView {
    pub chain_id: Option<EthChainId>,
    pub nonce: Option<u64>,
    pub gas_price: Option<int>,
    pub gas_limit: Option<u64>,
    pub to: Option<Option<EthAddress>>,
    pub value: Option<int>,
    pub input: Option<Seq<u8>>,
}

impl View for EthLegacyEip155TxArgsBuilder {
    type V = BuilderView;

    closed spec fn view(&self) -> BuilderView {
        BuilderView {
            chain_id: self.chain_id,
            nonce: self.nonce,
            gas_price: match self.gas_price {
                Some(gas_price) => Some(gas_price@),
                None => None,
            },
            gas_limit: self.gas_limit,
            to: self.to,
            value: match self.value {
                Some(value) => Some(value@),
                None => None,
            },
            input: match self.input {
                Some(input) => Some(input@),
                None => None,
            },
        }
    }
}

/// Why a transaction cannot be built.
#[derive(Debug, Clone, Copy, PartialEq, Eq)]
pub enum EthLegacyEip155TxArgsBuilderError {
    /// The field of this name is not set.
    UninitializedField(&'static str),
}

/// `builder` with what a message gives, whose parameters are `params` and whose recipient is `to`.
pub open spec fn with_message(
    builder: BuilderView,
    message: Message,
    params: Seq<u8>,
    to: Option<EthAddress>,
) -> BuilderView {
    BuilderView {
        chain_id: builder.chain_id,
        nonce: Some(message.sequence),
        gas_price: Some(message.gas_fee_cap@),
        gas_limit: Some(message.gas_limit),
        to: Some(to),
        value: Some(message.value@),
        input: Some(params),
    }
}

/// After a message, no field but the chain can be missing.
pub proof fn law_message_leaves_chain_id(
    builder: BuilderView,
    message: Message,
    params: Seq<u8>,
    to: Option<EthAddress>,
)
    ensures
        missing_field(with_message(builder, message, params, to)) == (
        if builder.chain_id is None {
            Some("chain_id"@)
        } else {
            None
        }),
{
}

/// The name of the first field that is not set.
pub open spec fn missing_field(builder: BuilderView) -> Option<Seq<char>> {
    if builder.chain_id is None {
        Some("chain_id"@)
    } else if builder.nonce is None {
        Some("nonce"@)
    } else if builder.gas_price is None {
        Some("gas_price"@)
    } else if builder.gas_limit is None {
        Some("gas_limit"@)
    } else if builder.to is None {
        Some("to"@)
    } else if builder.value is None {
        Some("value"@)
    } else if builder.input is None {
        Some("input"@)
    } else {
        None
    }
}

/// The transaction with the fields that are set, and zeros for its signature.
pub open spec fn built(builder: BuilderView) -> TxView {
    TxView {
        chain_id: builder.chain_id->0,
        nonce: builder.nonce->0,
        gas_price: builder.gas_price->0,
        gas_limit: builder.gas_limit->0,
        to: builder.to->0,
        value: builder.value->0,
        input: builder.input->0,
        v: 0,
        r: 0,
        s: 0,
    }
}

impl Default for EthLegacyEip155TxArgsBuilder {
    /// A transaction of which nothing is set.
    fn default() -> (r: Self)
        ensures
            r@ == (BuilderView {
                chain_id: None,
                nonce: None,
                gas_price: None,
                gas_limit: None,
                to: None,
                value: None,
                input: None,
            }),
    {
        EthLegacyEip155TxArgsBuilder {
            chain_id: None,
            nonce: None,
            gas_price: None,
            gas_limit: None,
            to: None,
            value: None,
            input: None,
        }
    }
}

impl Clone for EthLegacyEip155TxArgsBuilder {
    fn clone(&self) -> (r: Self)
        ensures
            r@ == self@,
    {
        let gas_price = match &self.gas_price {
            Some(gas_price) => Some(gas_price.clone()),
            None => None,
        };
        let value = match &self.value {
            Some(value) => Some(value.clone()),
            None => None,
        };
        let input = match &self.input {
            Some(input) => Some(input.clone()),
            None => None,
        };
        let builder = EthLegacyEip155TxArgsBuilder {
            chain_id: self.chain_id,
            nonce: self.nonce,
            gas_price,
            gas_limit: self.gas_limit,
            to: self.to,
            value,
            input,
        };
        assert(input is Some ==> input->0@ =~= self.input->0@);
        builder
    }
}

impl EthLegacyEip155TxArgsBuilder {
    /// Sets the chain.
    pub fn chain_id(&mut self, value: EthChainId) -> (r: &mut Self)
        ensures
            r@ == (BuilderView { chain_id: Some(value), ..old(self)@ }),
            *final(self) == *final(r),
    {
        self.chain_id = Some(value);
        self
    }

    /// Sets the nonce.
    pub fn nonce(&mut self, value: u64) -> (r: &mut Self)
        ensures
            r@ == (BuilderView { nonce: Some(value), ..old(self)@ }),
            *final(self) == *final(r),
    {
        self.nonce = Some(value);
        self
    }

    /// Sets the gas price.
    pub fn gas_price(&mut self, value: BigInt) -> (r: &mut Self)
        ensures
            r@ == (BuilderView { gas_price: Some(value@), ..old(self)@ }),
            *final(self) == *final(r),
    {
        self.gas_price = Some(value);
        self
    }

    /// Sets the gas limit.
    pub fn gas_limit(&mut self, value: u64) -> (r: &mut Self)
        ensures
            r@ == (BuilderView { gas_limit: Some(value), ..old(self)@ }),
            *final(self) == *final(r),
    {
        self.gas_limit = Some(value);
        self
    }

    /// Sets the recipient; `None` creates a contract.
    pub fn to(&mut self, value: Option<EthAddress>) -> (r: &mut Self)
        ensures
            r@ == (BuilderView { to: Some(value), ..old(self)@ }),
            *final(self) == *final(r),
    {
        self.to = Some(value);
        self
    }

    /// Sets the value.
    pub fn value(&mut self, value: BigInt) -> (r: &mut Self)
        ensures
            r@ == (BuilderView { value: Some(value@), ..old(self)@ }),
            *final(self) == *final(r),
    {
        self.value = Some(value);
        self
    }

    /// Sets the input.
    pub fn input(&mut self, value: Vec<u8>) -> (r: &mut Self)
        ensures
            r@ == (BuilderView { input: Some(value@), ..old(self)@ }),
            *final(self) == *final(r),
    {
        self.input = Some(value);
        self
    }

    /// Sets what a message gives: everything but the chain. `params_and_recipient` is what the
    /// parameters and the recipient of the message were read as.
    pub fn unsigned_message<E>(
        &mut self,
        message: &Message,
        params_and_recipient: Result<(Vec<u8>, Option<EthAddress>), E>,
    ) -> (r: Result<&mut Self, E>)
        ensures
            match params_and_recipient {
                Ok((params, to)) => r matches Ok(builder) && builder@ == with_message(
                    old(self)@,
                    *message,
                    params@,
                    to,
                ) && *final(self) == *final(builder),
                Err(error) => r matches Err(e) && e == error && *final(self) == *old(self),
            },
    {
        let (params, to) = match params_and_recipient {
            Ok((params, to)) => (params, to),
            Err(error) => {
                return Err(error);
            },
        };
        Ok(
            self.nonce(message.sequence).value(message.value.clone()).gas_price(
                message.gas_fee_cap.clone(),
            ).gas_limit(message.gas_limit).to(to).input(params),
        )
    }

    /// The transaction, where every field is set. Its signature is all zeros.
    pub fn build(&self) -> (r: Result<EthLegacyEip155TxArgs, EthLegacyEip155TxArgsBuilderError>)
        ensures
            match missing_field(self@) {
                None => r matches Ok(tx) && tx@ == built(self@),
                Some(field) => r matches Err(
                    EthLegacyEip155TxArgsBuilderError::UninitializedField(name),
                ) && name@ == field,
            },
    {
        let chain_id = match self.chain_id {
            Some(chain_id) => chain_id,
            None => {
                return Err(EthLegacyEip155TxArgsBuilderError::UninitializedField("chain_id"));
            },
        };
        let nonce = match self.nonce {
            Some(nonce) => nonce,
            None => {
                return Err(EthLegacyEip155TxArgsBuilderError::UninitializedField("nonce"));
            },
        };
        let gas_price = match &self.gas_price {
            Some(gas_price) => gas_price.clone(),
            None => {
                return Err(EthLegacyEip155TxArgsBuilderError::UninitializedField("gas_price"));
            },
        };
        let gas_limit = match self.gas_limit {
            Some(gas_limit) => gas_limit,
            None => {
                return Err(EthLegacyEip155TxArgsBuilderError::UninitializedField("gas_limit"));
            },
        };
        let to = match self.to {
            Some(to) => to,
            None => {
                return Err(EthLegacyEip155TxArgsBuilderError::UninitializedField("to"));
            },
        };
        let value = match &self.value {
            Some(value) => value.clone(),
            None => {
                return Err(EthLegacyEip155TxArgsBuilderError::UninitializedField("value"));
            },
        };
        let input = match &self.input {
            Some(input) => input.clone(),
            None => {
                return Err(EthLegacyEip155TxArgsBuilderError::UninitializedField("input"));
            },
        };
        let tx = EthLegacyEip155TxArgs {
            chain_id,
            nonce,
            gas_price,
            gas_limit,
            to,
            value,
            input,
            v: BigInt::default(),
            r: BigInt::default(),
            s: BigInt::default(),
        };
        assert(tx@.input =~= built(self@).input);
        Ok(tx)
    }
}

} // verus!
