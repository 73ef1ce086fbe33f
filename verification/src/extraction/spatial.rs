//! Spatial decorrelation via pixel mixing.
//!
//! Neighbouring pixels of a camera image tend to be alike. XORing each byte
//! with one a fixed distance away breaks that local structure without
//! discarding data.

use vstd::prelude::*;

verus! {

/// The stride as it applies to a buffer of `len` bytes: taken modulo `len`.
pub open spec fn effective_stride(stride: nat, len: nat) -> nat {
    if stride < len {
        stride
    } else {
        stride % len
    }
}

/// The index of the byte that byte `i` of a buffer of `len` bytes is mixed
/// with: `(i + stride) mod len`.
pub open spec fn partner_index(i: int, stride: nat, len: nat) -> int {
    let step = effective_stride(stride, len);
    if i + step < len {
        i + step
    } else {
        i + step - len
    }
}

/// The buffer `data` mixed at the given stride: byte `i` XORed with the
/// byte `stride` places further on, wrapping around at the end.
pub open spec fn mixed(data: Seq<u8>, stride: nat) -> Seq<u8> {
    Seq::new(data.len(), |i: int| data[i] ^ data[partner_index(i, stride, data.len())])
}

/// The partner of byte `i` is byte `(i + stride) mod len`.
pub proof fn lemma_partner_index_is_modular(i: int, stride: nat, len: nat)
    requires
        0 <= i < len,
    ensures
        0 <= partner_index(i, stride, len) < len,
        partner_index(i, stride, len) == (i + stride) % (len as int),
{
    let step = effective_stride(stride, len);
    let partner = partner_index(i, stride, len);
    assert(step == stride % len) by {
        if stride < len {
            vstd::arithmetic::div_mod::lemma_small_mod(stride, len);
        }
    }
    let wraps = stride as int / len as int;
    vstd::arithmetic::div_mod::lemma_fundamental_div_mod(stride as int, len as int);
    assert(len * wraps == wraps * len) by (nonlinear_arith);
    if i + step < len {
        vstd::arithmetic::div_mod::lemma_fundamental_div_mod_converse(
            i + stride,
            len as int,
            wraps,
            partner,
        );
    } else {
        assert((wraps + 1) * len == wraps * len + len) by (nonlinear_arith);
        vstd::arithmetic::div_mod::lemma_fundamental_div_mod_converse(
            i + stride,
            len as int,
            wraps + 1,
            partner,
        );
    }
}

/// Mixes pixels spatially to reduce local correlations.
pub struct SpatialMixer {
    stride: usize,
}

impl SpatialMixer {
    /// The mixing stride, at least one.
    pub closed spec fn stride(&self) -> usize {
        self.stride
    }

    /// The stride is at least one.
    #[verifier::type_invariant]
    pub open spec fn wf(&self) -> bool {
        self.stride() >= 1
    }

    /// Creates a mixer with a stride of one.
    pub fn new() -> (mixer: Self)
        ensures
            mixer.wf(),
            mixer.stride() == 1,
    {
        Self { stride: 1 }
    }

    /// Creates a mixer with a custom stride. A stride of zero counts as
    /// one.
    pub fn with_stride(stride: usize) -> (mixer: Self)
        ensures
            mixer.wf(),
            mixer.stride() == if stride >= 1 { stride } else { 1 },
    {
        Self { stride: if stride >= 1 { stride } else { 1 } }
    }

    /// Mixes the input data spatially.
    ///
    /// XORs each byte with the byte `stride` positions away, wrapping
    /// around at the end. The output is as long as the input.
    pub fn mix(&self, data: &[u8]) -> (output: Vec<u8>)
        ensures
            output@ == mixed(data@, self.stride() as nat),
    {
        let len = data.len();
        let mut output: Vec<u8> = Vec::new();
        if len == 0 {
            assert(output@ =~= mixed(data@, self.stride as nat));
            return output;
        }
        let stride = self.stride % len;
        proof {
            if self.stride < len {
                vstd::arithmetic::div_mod::lemma_small_mod(self.stride as nat, len as nat);
            }
        }
        let mut i: usize = 0;
        while i < len
            invariant
                len == data@.len(),
                len > 0,
                stride == effective_stride(self.stride as nat, len as nat),
                stride < len,
                i <= len,
                output@.len() == i,
                forall|j: int| 0 <= j < i ==> output@[j] == mixed(data@, self.stride as nat)[j],
            decreases len - i,
        {
            let partner = if i >= len - stride {
                i - (len - stride)
            } else {
                i + stride
            };
            output.push(data[i] ^ data[partner]);
            i = i + 1;
        }
        assert(output@ =~= mixed(data@, self.stride as nat));
        output
    }
}

impl Default for SpatialMixer {
    fn default() -> (mixer: Self)
        ensures
            mixer.wf(),
            mixer.stride() == 1,
    {
        Self::new()
    }
}

/// Mixing keeps the length: the empty buffer mixes to the empty buffer.
pub proof fn law_mix_keeps_length(data: Seq<u8>, stride: nat)
    ensures
        mixed(data, stride).len() == data.len(),
        data.len() == 0 ==> mixed(data, stride) == Seq::<u8>::empty(),
{
    assert(data.len() == 0 ==> mixed(data, stride) =~= Seq::<u8>::empty());
}

/// A buffer of equal bytes mixes to zeros, at any stride.
pub proof fn law_mix_of_equal_bytes_is_zero(data: Seq<u8>, stride: nat)
    requires
        forall|i: int, j: int| 0 <= i < data.len() && 0 <= j < data.len() ==> data[i] == data[j],
    ensures
        forall|i: int| 0 <= i < data.len() ==> (#[trigger] mixed(data, stride)[i]) == 0,
{
    assert forall|i: int| 0 <= i < data.len() implies (#[trigger] mixed(data, stride)[i]) == 0 by {
        lemma_partner_index_is_modular(i, stride, data.len());
        let partner = partner_index(i, stride, data.len());
        let b = data[i];
        assert(data[partner] == b);
        assert(b ^ b == 0) by (bit_vector);
    }
}

} // verus!
