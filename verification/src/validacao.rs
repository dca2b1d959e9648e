//! Validation of incoming transactions against the ledger.

use vstd::prelude::*;
use vstd::string::StrSliceExecFns;
use crate::block::Block;
use crate::blockchain::Blockchain;
use crate::clock::now_secs;
use crate::secure_transaction::SecureTransaction;
use crate::strutil::{spec_dec, u64_to_string};
use crate::transaction::Transaction;
use crate::transaction_error::TransactionError;

verus! {

/// Why a transaction failed ledger validation.
#[derive(Debug, Clone, Copy, PartialEq, Eq, Structural)]
pub enum TransacaoErro {
    /// An address is not in the `0x`-prefixed forty-hex-digit form.
    EnderecoInvalido,
    /// The transferred token does not exist.
    TokenNaoEncontrado,
    /// The sender's balance does not cover the amount.
    SaldoInsuficiente,
    /// The nonce is not exactly one past the sender's last.
    NonceInvalido,
    /// The timestamp lies more than a day in the past.
    TimestampInvalido,
    /// The same transaction already sits in the chain.
    TransacaoRepetida,
    /// The amount is zero.
    ValorInvalido,
}

/// Whether the character is an ASCII hexadecimal digit.
pub open spec fn spec_is_hexdigit(c: char) -> bool {
    (48 <= c as int <= 57) || (65 <= c as int <= 70) || (97 <= c as int <= 102)
}

/// Whether a string has the accepted address form: `0x` followed by
/// exactly forty hexadecimal digits.
pub open spec fn spec_endereco_valido(s: Seq<char>) -> bool {
    &&& s.len() == 42
    &&& s[0] == '0'
    &&& s[1] == 'x'
    &&& forall|i: int| 2 <= i < 42 ==> spec_is_hexdigit(#[trigger] s[i])
}

/// Whether a stored secure transaction matches an incoming one on
/// sender, nonce and timestamp.
pub open spec fn spec_tx_matches(st: SecureTransaction, t: Transaction) -> bool {
    st.from@ == t.from@ && st.nonce == t.nonce && st.timestamp == t.timestamp
}

/// Whether a block carries a transaction matching `t`.
pub open spec fn spec_block_has_tx(b: Block, t: Transaction) -> bool {
    exists|j: int| 0 <= j < b.transactions@.len() && spec_tx_matches(
        #[trigger] b.transactions@[j],
        t,
    )
}

/// Whether some block of the chain carries a transaction matching `t`.
pub open spec fn spec_tx_exists(chain: Seq<Block>, t: Transaction) -> bool {
    exists|i: int| 0 <= i < chain.len() && spec_block_has_tx(#[trigger] chain[i], t)
}

/// The validation verdict, checks in order: address form of both ends,
/// token existence, balance cover, nonce one past the last, non-zero
/// amount, a timestamp at most a day old, and no duplicate in the
/// chain.
pub open spec fn spec_validar(
    t: Transaction,
    chain: Blockchain,
    nonce_atual: u64,
    now_s: i64,
) -> Result<(), TransacaoErro> {
    if !spec_endereco_valido(t.from@) || !spec_endereco_valido(t.to@) {
        Err(TransacaoErro::EnderecoInvalido)
    } else if !chain.spec_has_token(spec_dec(t.token_id as nat)) {
        Err(TransacaoErro::TokenNaoEncontrado)
    } else if chain.spec_token(spec_dec(t.token_id as nat)).spec_balance_of(t.from@) < t.amount {
        Err(TransacaoErro::SaldoInsuficiente)
    } else if t.nonce != nonce_atual + 1 {
        Err(TransacaoErro::NonceInvalido)
    } else if t.amount == 0 {
        Err(TransacaoErro::ValorInvalido)
    } else if t.timestamp < now_s - 86400 {
        Err(TransacaoErro::TimestampInvalido)
    } else if spec_tx_exists(chain.chain@, t) {
        Err(TransacaoErro::TransacaoRepetida)
    } else {
        Ok(())
    }
}

/// Whether a timestamp is acceptable at a clock reading: not in the
/// future and at most a day in the past.
pub open spec fn spec_timestamp_ok(timestamp: i64, now_s: i64) -> bool {
    timestamp <= now_s && now_s - timestamp <= 86400
}

/// Whether the character is an ASCII hexadecimal digit.
fn is_hexdigit(c: char) -> (r: bool)
    ensures
        r == spec_is_hexdigit(c),
{
    let v = c as u32;
    (48 <= v && v <= 57) || (65 <= v && v <= 70) || (97 <= v && v <= 102)
}

/// Whether a string has the accepted address form.
pub fn validar_formato_endereco(endereco: &str) -> (r: bool)
    ensures
        r == spec_endereco_valido(endereco@),
{
    let len = endereco.unicode_len();
    if len != 42 {
        return false;
    }
    if endereco.get_char(0) != '0' || endereco.get_char(1) != 'x' {
        return false;
    }
    let mut i: usize = 2;
    while i < 42
        invariant
            2 <= i <= 42,
            endereco@.len() == 42,
            endereco@[0] == '0',
            endereco@[1] == 'x',
            forall|j: int| 2 <= j < i ==> spec_is_hexdigit(#[trigger] endereco@[j]),
        decreases 42 - i,
    {
        if !is_hexdigit(endereco.get_char(i)) {
            return false;
        }
        i = i + 1;
    }
    true
}

/// Validates a transaction against the ledger at a given clock
/// reading; the verdict is exactly [`spec_validar`].
pub fn validar_transacao_at(
    transaction: &Transaction,
    blockchain: &Blockchain,
    nonce_atual: u64,
    now_s: i64,
) -> (r: Result<(), TransacaoErro>)
    requires
        blockchain.wf(),
    ensures
        r == spec_validar(*transaction, *blockchain, nonce_atual, now_s),
{
    if !validar_formato_endereco(transaction.from.as_str()) || !validar_formato_endereco(
        transaction.to.as_str(),
    ) {
        return Err(TransacaoErro::EnderecoInvalido);
    }
    let id = u64_to_string(transaction.token_id);
    let token = match blockchain.get_token(id.as_str()) {
        Some(t) => t,
        None => {
            return Err(TransacaoErro::TokenNaoEncontrado);
        },
    };
    proof {
        let idx = blockchain.spec_token_idx(id@);
        assert(0 <= idx < blockchain.tokens@.len() && blockchain.tokens@[idx].id@ == id@);
        assert(blockchain.tokens@[idx].token.wf());
    }
    if token.balance_of(transaction.from.as_str()) < transaction.amount {
        return Err(TransacaoErro::SaldoInsuficiente);
    }
    if (transaction.nonce as u128) != (nonce_atual as u128) + 1 {
        return Err(TransacaoErro::NonceInvalido);
    }
    if transaction.amount == 0 {
        return Err(TransacaoErro::ValorInvalido);
    }
    if (transaction.timestamp as i128) < (now_s as i128) - 86400 {
        return Err(TransacaoErro::TimestampInvalido);
    }
    if blockchain.transacao_existe(transaction) {
        return Err(TransacaoErro::TransacaoRepetida);
    }
    Ok(())
}

/// Validates a transaction against the ledger, at the wall clock of
/// the moment of the call; apart from the clock reading the verdict is
/// exactly [`spec_validar`].
pub fn validar_transacao(
    transaction: &Transaction,
    blockchain: &Blockchain,
    nonce_atual: u64,
) -> (r: Result<(), TransacaoErro>)
    requires
        blockchain.wf(),
    ensures
        exists|now_s: i64|
            now_s >= 0 && r == spec_validar(*transaction, *blockchain, nonce_atual, now_s),
{
    let now_s = now_secs();
    let r = validar_transacao_at(transaction, blockchain, nonce_atual, now_s);
    proof {
        assert(now_s >= 0 && r == spec_validar(*transaction, *blockchain, nonce_atual, now_s));
    }
    r
}

impl Blockchain {
    /// Whether some block of the chain already carries a transaction
    /// with this sender, nonce and timestamp.
    pub fn transacao_existe(&self, transaction: &Transaction) -> (r: bool)
        ensures
            r == spec_tx_exists(self.chain@, *transaction),
    {
        let n = self.chain.len();
        let mut k: usize = 0;
        while k < n
            invariant
                0 <= k <= n,
                n == self.chain@.len(),
                forall|i: int| 0 <= i < k ==> !spec_block_has_tx(#[trigger] self.chain@[i], *transaction),
            decreases n - k,
        {
            let m = self.chain[k].transactions.len();
            let mut j: usize = 0;
            while j < m
                invariant
                    0 <= j <= m,
                    0 <= k < n,
                    n == self.chain@.len(),
                    m == self.chain@[k as int].transactions@.len(),
                    forall|i: int|
                        0 <= i < j ==> !spec_tx_matches(
                            #[trigger] self.chain@[k as int].transactions@[i],
                            *transaction,
                        ),
                decreases m - j,
            {
                let st = &self.chain[k].transactions[j];
                if st.from == transaction.from && st.nonce == transaction.nonce && st.timestamp
                    == transaction.timestamp {
                    return true;
                }
                j = j + 1;
            }
            k = k + 1;
        }
        false
    }

    /// Validates a transaction timestamp at a given clock reading: it
    /// must not lie in the future and at most a day in the past.
    pub fn validar_timestamp_at(timestamp: i64, now_s: i64) -> (r: Result<(), TransactionError>)
        ensures
            (r is Ok) <==> spec_timestamp_ok(timestamp, now_s),
            !(r is Ok) ==> r matches Err(TransactionError::TimestampInvalid),
    {
        let ts = timestamp as i128;
        let now = now_s as i128;
        if ts > now || now - ts > 86400 {
            Err(TransactionError::TimestampInvalid)
        } else {
            Ok(())
        }
    }

    /// Validates a transaction timestamp against the wall clock of the
    /// moment of the call.
    pub fn validar_timestamp(timestamp: i64) -> (r: Result<(), TransactionError>)
        ensures
            exists|now_s: i64|
                now_s >= 0 && ((r is Ok) <==> #[trigger] spec_timestamp_ok(timestamp, now_s)),
            !(r is Ok) ==> r matches Err(TransactionError::TimestampInvalid),
    {
        let now_s = now_secs();
        let r = Blockchain::validar_timestamp_at(timestamp, now_s);
        proof {
            assert(now_s >= 0 && ((r is Ok) <==> spec_timestamp_ok(timestamp, now_s)));
        }
        r
    }
}

} // verus!
