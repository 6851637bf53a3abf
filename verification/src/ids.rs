use vstd::prelude::*;

verus! {

/// Transaction id: the raw hash bytes of a transaction.
#[derive(Clone, Debug, PartialEq, Eq)]
pub struct Txid {
    pub bytes: Vec<u8>,
}

impl View for Txid {
    type V = Seq<u8>;

    open spec fn view(&self) -> Seq<u8> {
        self.bytes@
    }
}

impl DeepView for Txid {
    type V = Seq<u8>;

    open spec fn deep_view(&self) -> Seq<u8> {
        self.bytes@
    }
}

/// Output script: the script bytes identifying a watched UTXO's locator on
/// the indexer.  Two watches may share a script.
#[derive(Clone, Debug, PartialEq, Eq)]
pub struct Script {
    pub bytes: Vec<u8>,
}

impl View for Script {
    type V = Seq<u8>;

    open spec fn view(&self) -> Seq<u8> {
        self.bytes@
    }
}

impl DeepView for Script {
    type V = Seq<u8>;

    open spec fn deep_view(&self) -> Seq<u8> {
        self.bytes@
    }
}

/// Where to look for a transaction: the script is what the indexer is asked
/// about, the txid filters the returned history.
#[derive(Clone, Debug, PartialEq, Eq)]
pub struct TxLocator {
    pub txid: Txid,
    pub script: Script,
}

pub ghost struct TxLocatorV {
    pub txid: Seq<u8>,
    pub script: Seq<u8>,
}

impl View for TxLocator {
    type V = TxLocatorV;

    open spec fn view(&self) -> TxLocatorV {
        TxLocatorV { txid: self.txid@, script: self.script@ }
    }
}

impl DeepView for TxLocator {
    type V = TxLocatorV;

    open spec fn deep_view(&self) -> TxLocatorV {
        self.view()
    }
}

/// Globally unique handle for one CFD contract.
#[derive(Clone, Copy, Debug, PartialEq, Eq, Structural)]
pub struct OrderId {
    pub id: u128,
}

/// Lifecycle event fired by the confirmation engine, each carrying the
/// contract it belongs to.
#[derive(Clone, Copy, Debug, PartialEq, Eq, Structural)]
pub enum Event {
    LockFinality(OrderId),
    CommitFinality(OrderId),
    CloseFinality(OrderId),
    CetTimelockExpired(OrderId),
    CetFinality(OrderId),
    RefundTimelockExpired(OrderId),
    RefundFinality(OrderId),
    RevokedTransactionFound(OrderId),
}

/// The role a broadcast transaction plays; used for metrics labels only.
#[derive(Clone, Copy, Debug, PartialEq, Eq, Structural)]
pub enum TransactionKind {
    Lock,
    Commit,
    Refund,
    CollaborativeClose,
    Cet,
}

pub open spec fn kind_name_spec(k: TransactionKind) -> Seq<char> {
    match k {
        TransactionKind::Lock => "lock"@,
        TransactionKind::Commit => "commit"@,
        TransactionKind::Refund => "refund"@,
        TransactionKind::CollaborativeClose => "collaborative-close"@,
        TransactionKind::Cet => "contract-execution"@,
    }
}

impl TransactionKind {
    /// The metrics label for this kind of transaction.
    pub fn name(&self) -> (r: &'static str)
        ensures
            r@ == kind_name_spec(*self),
    {
        match self {
            TransactionKind::Lock => "lock",
            TransactionKind::Commit => "commit",
            TransactionKind::Refund => "refund",
            TransactionKind::CollaborativeClose => "collaborative-close",
            TransactionKind::Cet => "contract-execution",
        }
    }
}

/// Byte-wise equality of two byte vectors.
pub fn bytes_eq(a: &Vec<u8>, b: &Vec<u8>) -> (r: bool)
    ensures
        r == (a@ == b@),
{
    if a.len() != b.len() {
        return false;
    }
    let mut i: usize = 0;
    while i < a.len()
        invariant
            a@.len() == b@.len(),
            i <= a@.len(),
            forall|k: int| 0 <= k < i ==> a@[k] == b@[k],
        decreases a@.len() - i,
    {
        if a[i] != b[i] {
            return false;
        }
        i += 1;
    }
    proof {
        assert(a@ =~= b@);
    }
    true
}

/// A copy of a byte vector with the same contents.
pub fn clone_bytes(a: &Vec<u8>) -> (r: Vec<u8>)
    ensures
        r@ == a@,
{
    let mut r: Vec<u8> = Vec::new();
    let mut i: usize = 0;
    while i < a.len()
        invariant
            i <= a@.len(),
            r@ == a@.take(i as int),
        decreases a@.len() - i,
    {
        r.push(a[i]);
        proof {
            assert(r@ =~= a@.take(i + 1 as int));
        }
        i += 1;
    }
    proof {
        assert(a@.take(a@.len() as int) =~= a@);
    }
    r
}

/// A copy of a txid with the same view.
pub fn clone_txid(a: &Txid) -> (r: Txid)
    ensures
        r@ == a@,
{
    Txid { bytes: clone_bytes(&a.bytes) }
}

/// A copy of a script with the same view.
pub fn clone_script(a: &Script) -> (r: Script)
    ensures
        r@ == a@,
{
    Script { bytes: clone_bytes(&a.bytes) }
}

/// A copy of a locator with the same view.
pub fn clone_locator(a: &TxLocator) -> (r: TxLocator)
    ensures
        r@ == a@,
{
    TxLocator { txid: clone_txid(&a.txid), script: clone_script(&a.script) }
}

/// Equality of two locators: same txid and same script.
pub fn locator_eq(a: &TxLocator, b: &TxLocator) -> (r: bool)
    ensures
        r == (a@ == b@),
{
    let r = bytes_eq(&a.txid.bytes, &b.txid.bytes) && bytes_eq(&a.script.bytes, &b.script.bytes);
    r
}

} // verus!
