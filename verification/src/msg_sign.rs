//! Signing of outbound messages.
//!
//! A message is signed in its signing form: the message with every signature
//! field empty. The signing form is encoded, the bytes are signed with the
//! gateway's key, and the signature is written into the message.

use vstd::prelude::*;
use crate::beacon::BeaconReport;
use crate::bytes::copy_bytes;
use crate::error::Error;
use crate::keys::keypair_sign;
use crate::router::Register;

verus! {

/// A message that can be signed.
pub trait MsgSign: View + Sized {
    /// The value of a message with its signature fields empty.
    spec fn blanked(value: Self::V) -> Self::V;

    /// The signing form of the message: a copy with every signature field
    /// empty.
    fn signing_form(&self) -> (form: Self)
        ensures
            form@ == Self::blanked(self@),
    ;

    /// The signing form of a signing form is the signing form itself: a
    /// message and the same message with empty signature fields are signed
    /// alike.
    proof fn lemma_blanked_once(value: Self::V)
        ensures
            Self::blanked(Self::blanked(value)) == Self::blanked(value),
    ;
}

/// What signing comes to, given what the keypair answered: the signature, or
/// a crypto error with the text of the failure.
pub fn signature_of(signed: Result<Vec<u8>, String>) -> (result: Result<Vec<u8>, Error>)
    ensures
        match signed {
            Ok(signature) => result == Ok::<Vec<u8>, Error>(signature),
            Err(text) => result == Err::<Vec<u8>, Error>(Error::CryptoError(text)),
        },
{
    match signed {
        Ok(signature) => Ok(signature),
        Err(text) => Err(Error::CryptoError(text)),
    }
}

/// Sign `bytes`, the encoding of the signing form of a message, with the
/// gateway's key.
pub fn sign_bytes(
    keypair: &helium_crypto::Keypair,
    bytes: &Vec<u8>,
) -> (result: Result<Vec<u8>, Error>)
    ensures
        result matches Err(err) ==> err is CryptoError,
{
    signature_of(keypair_sign(keypair, bytes))
}

/// The bytes that are signed for `msg`: the encoding, by `encode`, of its
/// signing form.
pub fn signing_bytes<M: MsgSign, F: Fn(&M) -> Vec<u8>>(msg: &M, encode: F) -> (bytes: Vec<u8>)
    requires
        forall|form: M| encode.requires((&form,)),
    ensures
        exists|form: M| #[trigger] form@ == M::blanked(msg@) && encode.ensures((&form,), bytes),
{
    let form = msg.signing_form();
    encode(&form)
}

/// Sign `msg` with the gateway's key: its signing form is encoded by
/// `encode`, and the bytes are signed.
pub fn sign<M: MsgSign, F: Fn(&M) -> Vec<u8>>(
    msg: &M,
    encode: F,
    keypair: &helium_crypto::Keypair,
) -> (result: Result<Vec<u8>, Error>)
    requires
        forall|form: M| encode.requires((&form,)),
    ensures
        result matches Err(err) ==> err is CryptoError,
{
    let bytes = signing_bytes(msg, encode);
    sign_bytes(keypair, &bytes)
}

/// Mathematical value of a [`Register`] message.
pub struct RegisterView {
    pub timestamp: u64,
    pub gateway: Seq<u8>,
    pub signature: Seq<u8>,
}

impl View for Register {
    type V = RegisterView;

    open spec fn view(&self) -> RegisterView {
        RegisterView {
            timestamp: self.timestamp,
            gateway: self.gateway@,
            signature: self.signature@,
        }
    }
}

impl MsgSign for Register {
    open spec fn blanked(value: RegisterView) -> RegisterView {
        RegisterView { signature: Seq::empty(), ..value }
    }

    fn signing_form(&self) -> (form: Register) {
        Register {
            timestamp: self.timestamp,
            gateway: copy_bytes(&self.gateway),
            signature: Vec::new(),
        }
    }

    proof fn lemma_blanked_once(value: RegisterView) {
    }
}

/// Mathematical value of a [`BeaconReport`].
pub struct BeaconReportView {
    pub pub_key: Seq<u8>,
    pub local_entropy: Seq<u8>,
    pub remote_entropy: Seq<u8>,
    pub data: Seq<u8>,
    pub frequency: u64,
    pub channel: i32,
    pub datarate: i32,
    pub tmst: u32,
    pub tx_power: i32,
    pub timestamp: u64,
    pub signature: Seq<u8>,
}

impl View for BeaconReport {
    type V = BeaconReportView;

    open spec fn view(&self) -> BeaconReportView {
        BeaconReportView {
            pub_key: self.pub_key@,
            local_entropy: self.local_entropy@,
            remote_entropy: self.remote_entropy@,
            data: self.data@,
            frequency: self.frequency,
            channel: self.channel,
            datarate: self.datarate,
            tmst: self.tmst,
            tx_power: self.tx_power,
            timestamp: self.timestamp,
            signature: self.signature@,
        }
    }
}

impl MsgSign for BeaconReport {
    open spec fn blanked(value: BeaconReportView) -> BeaconReportView {
        BeaconReportView { signature: Seq::empty(), ..value }
    }

    fn signing_form(&self) -> (form: BeaconReport) {
        BeaconReport {
            pub_key: copy_bytes(&self.pub_key),
            local_entropy: copy_bytes(&self.local_entropy),
            remote_entropy: copy_bytes(&self.remote_entropy),
            data: copy_bytes(&self.data),
            frequency: self.frequency,
            channel: self.channel,
            datarate: self.datarate,
            tmst: self.tmst,
            tx_power: self.tx_power,
            timestamp: self.timestamp,
            signature: Vec::new(),
        }
    }

    proof fn lemma_blanked_once(value: BeaconReportView) {
    }
}

/// The transaction that adds a gateway to the chain. It is signed by the
/// owner, by the gateway and by the payer, each over the transaction with all
/// three signatures empty.
#[derive(Debug, Clone, PartialEq, Eq)]
pub struct AddGateway {
    pub owner: Vec<u8>,
    pub owner_signature: Vec<u8>,
    pub gateway: Vec<u8>,
    pub gateway_signature: Vec<u8>,
    pub payer: Vec<u8>,
    pub payer_signature: Vec<u8>,
    pub staking_fee: u64,
    pub fee: u64,
}

/// Mathematical value of an [`AddGateway`] transaction.
pub struct AddGatewayView {
    pub owner: Seq<u8>,
    pub owner_signature: Seq<u8>,
    pub gateway: Seq<u8>,
    pub gateway_signature: Seq<u8>,
    pub payer: Seq<u8>,
    pub payer_signature: Seq<u8>,
    pub staking_fee: u64,
    pub fee: u64,
}

impl View for AddGateway {
    type V = AddGatewayView;

    open spec fn view(&self) -> AddGatewayView {
        AddGatewayView {
            owner: self.owner@,
            owner_signature: self.owner_signature@,
            gateway: self.gateway@,
            gateway_signature: self.gateway_signature@,
            payer: self.payer@,
            payer_signature: self.payer_signature@,
            staking_fee: self.staking_fee,
            fee: self.fee,
        }
    }
}

impl MsgSign for AddGateway {
    open spec fn blanked(value: AddGatewayView) -> AddGatewayView {
        AddGatewayView {
            owner_signature: Seq::empty(),
            payer_signature: Seq::empty(),
            gateway_signature: Seq::empty(),
            ..value
        }
    }

    fn signing_form(&self) -> (form: AddGateway) {
        AddGateway {
            owner: copy_bytes(&self.owner),
            owner_signature: Vec::new(),
            gateway: copy_bytes(&self.gateway),
            gateway_signature: Vec::new(),
            payer: copy_bytes(&self.payer),
            payer_signature: Vec::new(),
            staking_fee: self.staking_fee,
            fee: self.fee,
        }
    }

    proof fn lemma_blanked_once(value: AddGatewayView) {
    }
}

/// Messages that differ in their signature fields only are signed alike:
/// they have the same signing form.
pub proof fn lemma_signature_ignored<M: MsgSign>(a: M, b: M)
    requires
        M::blanked(a@) == M::blanked(b@),
    ensures
        M::blanked(M::blanked(a@)) == M::blanked(b@),
{
    M::lemma_blanked_once(a@);
}

} // verus!
