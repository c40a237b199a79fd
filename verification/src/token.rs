//! The credential a client presents when it opens a game node connection.

use vstd::prelude::*;

verus! {

/// Opaque 16-byte credential issued by the lobby.
#[derive(Debug, PartialEq, Hash, Eq, Clone)]
pub struct NodeConnectToken([u8; 16]);

/// What decoding `bytes` must give: the token holding exactly these bytes
/// when there are sixteen of them, and nothing otherwise.
pub open spec fn decodes_to(bytes: Seq<u8>, res: Option<NodeConnectToken>) -> bool {
    match res {
        Some(t) => bytes.len() == 16 && t@ == bytes,
        None => bytes.len() != 16,
    }
}

impl View for NodeConnectToken {
    type V = Seq<u8>;

    closed spec fn view(&self) -> Seq<u8> {
        self.0@
    }
}

impl NodeConnectToken {
    /// Builds a token from a byte vector; `None` unless it holds exactly
    /// sixteen bytes.
    pub fn from_vec(bytes: Vec<u8>) -> (res: Option<Self>)
        ensures
            decodes_to(bytes@, res),
    {
        if bytes.len() != 16 {
            return None;
        }
        let mut raw: [u8; 16] = [0u8; 16];
        let mut i: usize = 0;
        while i < 16
            invariant
                i <= 16,
                bytes@.len() == 16,
                forall|j: int| 0 <= j < i ==> raw@[j] == bytes@[j],
            decreases 16 - i,
        {
            raw[i] = bytes[i];
            i += 1;
        }
        assert(raw@ =~= bytes@);
        Some(NodeConnectToken(raw))
    }

    /// The token's sixteen bytes, in order.
    pub fn to_vec(&self) -> (res: Vec<u8>)
        ensures
            res@ == self@,
            res@.len() == 16,
    {
        let mut out: Vec<u8> = Vec::new();
        let mut i: usize = 0;
        while i < 16
            invariant
                i <= 16,
                out@.len() == i,
                forall|j: int| 0 <= j < i ==> out@[j] == self.0@[j],
            decreases 16 - i,
        {
            out.push(self.0[i]);
            i += 1;
        }
        assert(out@ =~= self.0@);
        out
    }

    /// Every token holds sixteen bytes.
    pub proof fn lemma_view_len(self)
        ensures
            self@.len() == 16,
    {
    }

    /// Two tokens with the same bytes are the same token.
    pub proof fn lemma_view_injective(self, other: Self)
        requires
            self@ == other@,
        ensures
            self == other,
    {
        assert(self.0 =~= other.0);
    }
}

/// Encoding a token and decoding the bytes gives the token back: whatever
/// decoding the bytes of `t` yields, it is `Some(t)`.
pub proof fn lemma_token_round_trip(t: NodeConnectToken, decoded: Option<NodeConnectToken>)
    requires
        decodes_to(t@, decoded),
    ensures
        decoded == Some(t),
{
    t.lemma_view_len();
    match decoded {
        Some(u) => {
            u.lemma_view_injective(t);
        },
        None => {},
    }
}

/// Decoding fails exactly on inputs whose length is not sixteen.
pub proof fn lemma_decode_none_iff_wrong_len(bytes: Seq<u8>, decoded: Option<NodeConnectToken>)
    requires
        decodes_to(bytes, decoded),
    ensures
        decoded.is_none() <==> bytes.len() != 16,
{
}

} // verus!
