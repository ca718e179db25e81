//! Stream certificates: who may act on a stream, and the certificate's name, URI and metadata.

use vstd::prelude::*;
use vstd::string::StringSliceAdditionalSpecFns;

use crate::errors::Error;
use crate::storage::{
    same_address, same_bytes, Action, Address, EsdtPayment, Stream, StreamAttributes, StreamRole,
};
use crate::CoinDrip;

verus! {

broadcast use vstd::std_specs::hash::group_hash_axioms;

impl CoinDrip {
    /// The role a call plays on stream `s`: with no tokens attached the caller
    /// must be the sender; otherwise exactly the stream's certificate must come
    /// with it, and any other token or nonce is an invalid certificate.
    pub open spec fn spec_role(&self, s: Stream, caller: Address, payments: Seq<EsdtPayment>) -> Result<
        StreamRole,
        Error,
    > {
        if payments.len() == 0 {
            if caller@ == s.sender@ {
                Ok(StreamRole::Sender)
            } else {
                Err(Error::InvalidRole)
            }
        } else if payments.len() != 1 {
            Err(Error::SendOneStreamNft)
        } else if !(self.stream_nft_token matches Some(t) && t@ == payments[0].token_identifier@) {
            Err(Error::InvalidNftToken)
        } else if s.nft_nonce != payments[0].token_nonce {
            Err(Error::InvalidNftToken)
        } else {
            Ok(StreamRole::Recipient)
        }
    }

    /// The role check of an operation on stream `stream_id`, when the operation needs `required`.
    pub open spec fn spec_require_role(
        &self,
        stream_id: u64,
        caller: Address,
        payments: Seq<EsdtPayment>,
        required: Option<StreamRole>,
    ) -> Result<StreamRole, Error> {
        if !self.streams@.contains_key(stream_id) {
            Err(Error::InvalidStream)
        } else {
            match self.spec_role(self.streams@[stream_id], caller, payments) {
                Err(e) => Err(e),
                Ok(role) => match required {
                    Some(req) => if req == role {
                        Ok(role)
                    } else {
                        Err(Error::InvalidRole)
                    },
                    None => Ok(role),
                },
            }
        }
    }

    /// Check that the caller may act on the stream, as its sender or as the
    /// holder of its certificate, and in the required role if one is given.
    pub fn require_valid_stream_nft(
        &self,
        stream_id: u64,
        required_role_opt: Option<StreamRole>,
        caller: &Address,
        payments: &Vec<EsdtPayment>,
    ) -> (r: Result<StreamRole, Error>)
        ensures
            r == self.spec_require_role(stream_id, *caller, payments@, required_role_opt),
    {
        let stream = match self.streams.get(&stream_id) {
            Some(s) => s,
            None => {
                return Err(Error::InvalidStream);
            },
        };
        let mut stream_role = StreamRole::Sender;
        if payments.len() == 0 {
            if !same_address(caller, &stream.sender) {
                return Err(Error::InvalidRole);
            }
        } else {
            if payments.len() != 1 {
                return Err(Error::SendOneStreamNft);
            }
            let payment = &payments[0];
            let token_ok = match &self.stream_nft_token {
                Some(t) => same_bytes(t, &payment.token_identifier),
                None => false,
            };
            if !token_ok {
                return Err(Error::InvalidNftToken);
            }
            if stream.nft_nonce != payment.token_nonce {
                return Err(Error::InvalidNftToken);
            }
            stream_role = StreamRole::Recipient;
        }
        match required_role_opt {
            Some(required_role) => {
                if required_role != stream_role {
                    return Err(Error::InvalidRole);
                }
            },
            None => {},
        }
        Ok(stream_role)
    }
}


/// The certificate's royalties, in hundredths of a percent.
pub const NFT_ROYALTIES: u64 = 300;

/// The decimal digits of `n`, most significant first, without leading zeros.
pub open spec fn decimal_digits(n: nat) -> Seq<u8>
    decreases n,
{
    if n < 10 {
        seq![(48 + n) as u8]
    } else {
        decimal_digits(n / 10).push((48 + n % 10) as u8)
    }
}

/// The ASCII decimal form of `number`.
pub fn u64_to_ascii(number: u64) -> (r: Vec<u8>)
    ensures
        r@ == decimal_digits(number as nat),
    decreases number,
{
    if number < 10 {
        let mut r: Vec<u8> = Vec::new();
        r.push((48 + number) as u8);
        r
    } else {
        let mut r = u64_to_ascii(number / 10);
        r.push((48 + number % 10) as u8);
        r
    }
}

/// Append the UTF-8 bytes of `s` to `v`.
pub fn append_str(v: &mut Vec<u8>, s: &str)
    ensures
        final(v)@ == old(v)@ + s.spec_bytes(),
{
    append_bytes(v, s.as_bytes());
}

/// Append `b` to `v`.
pub fn append_bytes(v: &mut Vec<u8>, b: &[u8])
    ensures
        final(v)@ == old(v)@ + b@,
{
    let ghost start = v@;
    let mut i: usize = 0;
    while i < b.len()
        invariant
            i <= b@.len(),
            v@ == start + b@.subrange(0, i as int),
        decreases b@.len() - i,
    {
        v.push(b[i]);
        i = i + 1;
        assert(v@ =~= start + b@.subrange(0, i as int));
    }
    assert(b@.subrange(0, b@.len() as int) =~= b@);
}

/// The certificate name of stream `id`.
pub open spec fn nft_name(id: u64) -> Seq<u8> {
    "CoinDrip Stream #".spec_bytes() + decimal_digits(id as nat)
}

/// The certificate URI of stream `id` under `base_uri`.
pub open spec fn nft_uri(base_uri: Seq<u8>, id: u64) -> Seq<u8> {
    base_uri + "/api/stream/".spec_bytes() + decimal_digits(id as nat) + "/nft".spec_bytes()
}

/// The metadata a new certificate records for stream `s`.
pub open spec fn attributes_match(a: StreamAttributes, s: Stream) -> bool {
    &&& a.sender@ == s.sender@
    &&& a.payment_token@ == s.payment_token@
    &&& a.payment_nonce == s.payment_nonce
    &&& a.deposit == s.deposit
    &&& a.remaining_balance == s.deposit
    &&& a.can_cancel == s.can_cancel
    &&& a.start_time == s.start_time
    &&& a.end_time == s.end_time
    &&& a.cliff == s.cliff
    &&& !a.is_canceled
}

impl CoinDrip {
    /// The request to create the certificate of `stream`: its name and URI carry
    /// the stream id, and its metadata the stream's terms with nothing claimed.
    pub fn mint_stream_nft(&self, stream: &Stream) -> (r: Result<Action, Error>)
        ensures
            self.stream_nft_token is None ==> r == Err::<Action, Error>(Error::TokenNotIssued),
            self.stream_nft_token is Some ==> (r matches Ok(Action::MintStreamNft {
                nonce,
                name,
                uri,
                royalties,
                attributes,
            }) && nonce == stream.nft_nonce && name@ == nft_name(stream.nft_nonce) && uri@
                == nft_uri(self.stream_nft_base_uri@, stream.nft_nonce) && royalties
                == NFT_ROYALTIES && attributes_match(attributes, *stream)),
    {
        if self.stream_nft_token.is_none() {
            return Err(Error::TokenNotIssued);
        }
        let stream_id_buffer = u64_to_ascii(stream.nft_nonce);
        let mut token_name: Vec<u8> = Vec::new();
        append_str(&mut token_name, "CoinDrip Stream #");
        append_bytes(&mut token_name, stream_id_buffer.as_slice());
        let mut full_uri = crate::storage::copy_bytes(&self.stream_nft_base_uri);
        append_str(&mut full_uri, "/api/stream/");
        append_bytes(&mut full_uri, stream_id_buffer.as_slice());
        append_str(&mut full_uri, "/nft");
        proof {
            assert(token_name@ =~= nft_name(stream.nft_nonce));
            assert(full_uri@ =~= nft_uri(self.stream_nft_base_uri@, stream.nft_nonce));
        }
        let attributes = StreamAttributes {
            sender: stream.sender,
            payment_token: stream.payment_token.copy(),
            payment_nonce: stream.payment_nonce,
            deposit: stream.deposit,
            remaining_balance: stream.deposit,
            can_cancel: stream.can_cancel,
            start_time: stream.start_time,
            end_time: stream.end_time,
            cliff: stream.cliff,
            is_canceled: false,
        };
        Ok(
            Action::MintStreamNft {
                nonce: stream.nft_nonce,
                name: token_name,
                uri: full_uri,
                royalties: NFT_ROYALTIES,
                attributes,
            },
        )
    }

    /// The request to burn the certificate of stream `stream_id`.
    pub fn burn_stream_nft(&self, stream_id: u64) -> (r: Result<Action, Error>)
        ensures
            self.streams@.contains_key(stream_id) ==> r == Ok::<Action, Error>(
                Action::BurnStreamNft { nonce: self.streams@[stream_id].nft_nonce },
            ),
            !self.streams@.contains_key(stream_id) ==> r == Err::<Action, Error>(
                Error::InvalidStream,
            ),
    {
        match self.streams.get(&stream_id) {
            Some(stream) => Ok(Action::BurnStreamNft { nonce: stream.nft_nonce }),
            None => Err(Error::InvalidStream),
        }
    }

    /// The owner asks for the certificate token to be issued, paying `issue_cost`
    /// in the native coin; it can be issued only once.
    pub fn issue_token(&self, caller: &Address, issue_cost: u128) -> (r: Result<Action, Error>)
        ensures
            caller@ != self.owner@ ==> r == Err::<Action, Error>(Error::OnlyOwner),
            caller@ == self.owner@ && self.stream_nft_token is Some ==> r == Err::<Action, Error>(
                Error::TokenAlreadyIssued,
            ),
            caller@ == self.owner@ && self.stream_nft_token is None ==> (r matches Ok(
                Action::IssueStreamNftToken { issue_cost: c, token_name, token_ticker, num_decimals },
            ) && c == issue_cost && token_name@ == "CoindripStreams".spec_bytes() && token_ticker@
                == "DRIP".spec_bytes() && num_decimals == 18),
    {
        if !same_address(caller, &self.owner) {
            return Err(Error::OnlyOwner);
        }
        if self.stream_nft_token.is_some() {
            return Err(Error::TokenAlreadyIssued);
        }
        let mut token_name: Vec<u8> = Vec::new();
        append_str(&mut token_name, "CoindripStreams");
        let mut token_ticker: Vec<u8> = Vec::new();
        append_str(&mut token_ticker, "DRIP");
        Ok(Action::IssueStreamNftToken { issue_cost, token_name, token_ticker, num_decimals: 18 })
    }

    /// Record the identifier the certificate token was issued under; it is set only once.
    pub fn set_stream_nft_token(&mut self, token_identifier: Vec<u8>) -> (r: Result<(), Error>)
        requires
            old(self).wf(),
        ensures
            final(self).wf(),
            old(self).stream_nft_token is Some ==> r == Err::<(), Error>(Error::TokenAlreadyIssued)
                && *final(self) == *old(self),
            old(self).stream_nft_token is None ==> r is Ok && (final(self).stream_nft_token
                matches Some(t) && t@ == token_identifier@) && final(self).streams@ == old(
                self,
            ).streams@ && final(self).last_stream_id == old(self).last_stream_id
                && final(self).block_timestamp == old(self).block_timestamp,
    {
        if self.stream_nft_token.is_some() {
            return Err(Error::TokenAlreadyIssued);
        }
        self.stream_nft_token = Some(token_identifier);
        Ok(())
    }
}

} // verus!
