//! That minted keys are never the same.

use vstd::prelude::*;

use crate::clock::Clock;
use crate::error::ContentError;
use crate::ext::{digits_before, hex_digit, hyphenated, Uuid};
use crate::input::UploadContentInput;
use crate::laws::upload::law_upload_outcomes;
use crate::laws::MemoryService;
use crate::service::{minted_key, UploadOutcome};
use crate::store::ObjectStore;

verus! {

/// Two identifiers whose hyphenated forms agree in a digit agree in its bits.
proof fn lemma_same_digit(a: Uuid, b: Uuid, position: int, shift: u128)
    requires
        0 <= position < 36,
        position != 8 && position != 13 && position != 18 && position != 23,
        shift == 4 * (31 - digits_before(position)),
        hyphenated(a) == hyphenated(b),
    ensures
        (a >> shift) & 0xf == (b >> shift) & 0xf,
{
    let x = (a >> shift) & 0xf;
    let y = (b >> shift) & 0xf;
    assert(x < 16) by {
        assert((a >> shift) & 0xf < 16) by (bit_vector);
    }
    assert(y < 16) by {
        assert((b >> shift) & 0xf < 16) by (bit_vector);
    }
    assert(hyphenated(a)[position] == hex_digit(x as int));
    assert(hyphenated(b)[position] == hex_digit(y as int));
}

/// Different identifiers have different hyphenated forms.
pub proof fn law_hyphenated_forms_differ(a: Uuid, b: Uuid)
    requires
        hyphenated(a) == hyphenated(b),
    ensures
        a == b,
{
    lemma_same_digit(a, b, 0, 124);
    lemma_same_digit(a, b, 1, 120);
    lemma_same_digit(a, b, 2, 116);
    lemma_same_digit(a, b, 3, 112);
    lemma_same_digit(a, b, 4, 108);
    lemma_same_digit(a, b, 5, 104);
    lemma_same_digit(a, b, 6, 100);
    lemma_same_digit(a, b, 7, 96);
    lemma_same_digit(a, b, 9, 92);
    lemma_same_digit(a, b, 10, 88);
    lemma_same_digit(a, b, 11, 84);
    lemma_same_digit(a, b, 12, 80);
    lemma_same_digit(a, b, 14, 76);
    lemma_same_digit(a, b, 15, 72);
    lemma_same_digit(a, b, 16, 68);
    lemma_same_digit(a, b, 17, 64);
    lemma_same_digit(a, b, 19, 60);
    lemma_same_digit(a, b, 20, 56);
    lemma_same_digit(a, b, 21, 52);
    lemma_same_digit(a, b, 22, 48);
    lemma_same_digit(a, b, 24, 44);
    lemma_same_digit(a, b, 25, 40);
    lemma_same_digit(a, b, 26, 36);
    lemma_same_digit(a, b, 27, 32);
    lemma_same_digit(a, b, 28, 28);
    lemma_same_digit(a, b, 29, 24);
    lemma_same_digit(a, b, 30, 20);
    lemma_same_digit(a, b, 31, 16);
    lemma_same_digit(a, b, 32, 12);
    lemma_same_digit(a, b, 33, 8);
    lemma_same_digit(a, b, 34, 4);
    lemma_same_digit(a, b, 35, 0);
    assert(a == b) by (bit_vector)
        requires
            (a >> 0u128) & 0xf == (b >> 0u128) & 0xf,
            (a >> 4u128) & 0xf == (b >> 4u128) & 0xf,
            (a >> 8u128) & 0xf == (b >> 8u128) & 0xf,
            (a >> 12u128) & 0xf == (b >> 12u128) & 0xf,
            (a >> 16u128) & 0xf == (b >> 16u128) & 0xf,
            (a >> 20u128) & 0xf == (b >> 20u128) & 0xf,
            (a >> 24u128) & 0xf == (b >> 24u128) & 0xf,
            (a >> 28u128) & 0xf == (b >> 28u128) & 0xf,
            (a >> 32u128) & 0xf == (b >> 32u128) & 0xf,
            (a >> 36u128) & 0xf == (b >> 36u128) & 0xf,
            (a >> 40u128) & 0xf == (b >> 40u128) & 0xf,
            (a >> 44u128) & 0xf == (b >> 44u128) & 0xf,
            (a >> 48u128) & 0xf == (b >> 48u128) & 0xf,
            (a >> 52u128) & 0xf == (b >> 52u128) & 0xf,
            (a >> 56u128) & 0xf == (b >> 56u128) & 0xf,
            (a >> 60u128) & 0xf == (b >> 60u128) & 0xf,
            (a >> 64u128) & 0xf == (b >> 64u128) & 0xf,
            (a >> 68u128) & 0xf == (b >> 68u128) & 0xf,
            (a >> 72u128) & 0xf == (b >> 72u128) & 0xf,
            (a >> 76u128) & 0xf == (b >> 76u128) & 0xf,
            (a >> 80u128) & 0xf == (b >> 80u128) & 0xf,
            (a >> 84u128) & 0xf == (b >> 84u128) & 0xf,
            (a >> 88u128) & 0xf == (b >> 88u128) & 0xf,
            (a >> 92u128) & 0xf == (b >> 92u128) & 0xf,
            (a >> 96u128) & 0xf == (b >> 96u128) & 0xf,
            (a >> 100u128) & 0xf == (b >> 100u128) & 0xf,
            (a >> 104u128) & 0xf == (b >> 104u128) & 0xf,
            (a >> 108u128) & 0xf == (b >> 108u128) & 0xf,
            (a >> 112u128) & 0xf == (b >> 112u128) & 0xf,
            (a >> 116u128) & 0xf == (b >> 116u128) & 0xf,
            (a >> 120u128) & 0xf == (b >> 120u128) & 0xf,
            (a >> 124u128) & 0xf == (b >> 124u128) & 0xf,
    ;
}

/// A minted key tells its content and its suffix.
pub proof fn law_minted_keys_differ(c1: Uuid, s1: Uuid, c2: Uuid, s2: Uuid)
    requires
        minted_key(c1, s1) == minted_key(c2, s2),
    ensures
        c1 == c2,
        s1 == s2,
{
    reveal_strlit("/");
    let k1 = minted_key(c1, s1);
    let k2 = minted_key(c2, s2);
    assert(k1.take(36) =~= hyphenated(c1));
    assert(k2.take(36) =~= hyphenated(c2));
    assert(k1.skip(37) =~= hyphenated(s1));
    assert(k2.skip(37) =~= hyphenated(s2));
    law_hyphenated_forms_differ(c1, c2);
    law_hyphenated_forms_differ(s1, s2);
}

/// Two uploads in turn that bring no key of their own get different keys.
pub proof fn law_uploads_mint_different_keys<S: ObjectStore, K: Clock>(
    a: MemoryService<S, K>,
    in1: UploadContentInput,
    by1: Option<String>,
    b: MemoryService<S, K>,
    out1: UploadOutcome,
    in2: UploadContentInput,
    by2: Option<String>,
    c: MemoryService<S, K>,
    out2: UploadOutcome,
)
    requires
        in1.object_key is None,
        in2.object_key is None,
        MemoryService::<S, K>::uploads(a, in1, by1, b, Ok::<UploadOutcome, ContentError>(out1)),
        MemoryService::<S, K>::uploads(b, in2, by2, c, Ok::<UploadOutcome, ContentError>(out2)),
    ensures
        out1.object.object_key@ != out2.object.object_key@,
{
    law_upload_outcomes(a, in1, by1, b, Ok(out1));
    law_upload_outcomes(b, in2, by2, c, Ok(out2));
    let s1 = b.last_suffix()->Some_0;
    let s2 = c.last_suffix()->Some_0;
    assert(out1.object.object_key@ == minted_key(out1.content.id, s1));
    assert(out2.object.object_key@ == minted_key(out2.content.id, s2));
    if out1.object.object_key@ == out2.object.object_key@ {
        law_minted_keys_differ(out1.content.id, s1, out2.content.id, s2);
    }
}

} // verus!
