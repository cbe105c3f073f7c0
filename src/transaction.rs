use vstd::prelude::*;

verus! {

/// One ledger operation carried by a transaction.
#[derive(Clone, Debug)]
pub enum Action {
    /// Remove the access key with this public key from the signer's account.
    DeleteKey { public_key: String },
    /// Call a method of a contract.
    FunctionCall { method_name: String, args: Vec<u8>, gas: u64, deposit: u128 },
}

/// An unsigned transaction: metadata fixed by the ancestors of the leaf
/// operation, and the actions in the order they were added.
#[derive(Clone, Debug)]
pub struct UnsignedTransaction {
    pub signer_id: String,
    pub public_key: String,
    pub nonce: u64,
    pub receiver_id: String,
    pub block_hash: Vec<u8>,
    pub actions: Vec<Action>,
}

pub struct TransactionModel {
    pub signer_id: Seq<char>,
    pub public_key: Seq<char>,
    pub nonce: u64,
    pub receiver_id: Seq<char>,
    pub block_hash: Seq<u8>,
    pub actions: Seq<Action>,
}

impl TransactionModel {
    /// The same transaction with one more action at the end.
    pub open spec fn extended(self, action: Action) -> TransactionModel {
        TransactionModel { actions: self.actions.push(action), ..self }
    }

    /// Both transactions carry the same metadata.
    pub open spec fn same_metadata(self, other: TransactionModel) -> bool {
        &&& self.signer_id == other.signer_id
        &&& self.public_key == other.public_key
        &&& self.nonce == other.nonce
        &&& self.receiver_id == other.receiver_id
        &&& self.block_hash == other.block_hash
    }
}

impl UnsignedTransaction {
    pub open spec fn view(&self) -> TransactionModel {
        TransactionModel {
            signer_id: self.signer_id@,
            public_key: self.public_key@,
            nonce: self.nonce,
            receiver_id: self.receiver_id@,
            block_hash: self.block_hash@,
            actions: self.actions@,
        }
    }

    /// A transaction with its metadata set and no actions yet.
    pub fn new(
        signer_id: String,
        public_key: String,
        nonce: u64,
        receiver_id: String,
        block_hash: Vec<u8>,
    ) -> (r: Self)
        ensures
            r.signer_id == signer_id,
            r.public_key == public_key,
            r.nonce == nonce,
            r.receiver_id == receiver_id,
            r.block_hash == block_hash,
            r.actions@ == Seq::<Action>::empty(),
    {
        UnsignedTransaction { signer_id, public_key, nonce, receiver_id, block_hash, actions: Vec::new() }
    }

    /// Appends one action; the metadata and the earlier actions stay as they were.
    pub fn extend(self, action: Action) -> (r: Self)
        ensures
            r.view() == self.view().extended(action),
    {
        let mut tx = self;
        tx.actions.push(action);
        tx
    }
}

/// Actions contributed in root-to-leaf order end up in the transaction in
/// that same order.
pub proof fn lemma_action_accumulation_order(base: TransactionModel, a1: Action, a2: Action)
    requires
        base.actions.len() == 0,
    ensures
        base.extended(a1).extended(a2).actions == seq![a1, a2],
        base.extended(a1).extended(a2).same_metadata(base),
{
    assert(base.extended(a1).extended(a2).actions =~= seq![a1, a2]);
}

/// The delete-access-key operation, resolved: the public key of the key to delete.
#[derive(Clone, Debug)]
pub struct DeleteAccessKeyType {
    pub public_key: String,
}

impl DeleteAccessKeyType {
    /// Completes the transaction prepared by the layers above: one delete-key
    /// action for this public key goes after the actions already there. The
    /// result is what goes to signing.
    pub fn process(self, prepopulated_unsigned_transaction: UnsignedTransaction) -> (r: UnsignedTransaction)
        ensures
            r.view() == prepopulated_unsigned_transaction.view().extended(
                Action::DeleteKey { public_key: self.public_key },
            ),
    {
        let action = Action::DeleteKey { public_key: self.public_key };
        prepopulated_unsigned_transaction.extend(action)
    }
}

} // verus!
