//! Backup recovery codes: batches of fixed-length numeric one-time codes,
//! and exact-match validation against a caller-supplied list.

use vstd::prelude::*;
use crate::digits::{digit_str, is_dec_char};

verus! {

/// Generates fixed-size batches of fixed-length decimal backup codes and
/// checks a candidate for membership in a persisted list.
pub struct BackupCodeGenerator {
    code_length: usize,
    count: usize,
}

/// Relies on `rand::Rng::gen_range` over `rand::thread_rng`: a draw below
/// ten. Nothing more can be promised of a random draw.
#[verifier::external_body]
fn random_digit() -> (d: u8)
    ensures
        d < 10,
{
    rand::Rng::gen_range(&mut rand::thread_rng(), 0..10u8)
}

impl BackupCodeGenerator {
    /// The configured length of each code, in digits.
    pub closed spec fn spec_code_length(&self) -> usize {
        self.code_length
    }

    /// The configured number of codes per batch.
    pub closed spec fn spec_count(&self) -> usize {
        self.count
    }

    pub fn new(code_length: usize, count: usize) -> (g: Self)
        ensures
            g.spec_code_length() == code_length,
            g.spec_count() == count,
    {
        Self { code_length, count }
    }

    /// Generates a batch: exactly `count` codes, each exactly `code_length`
    /// decimal digits, drawn independently. Duplicates within a batch are
    /// possible; each code stays individually valid.
    pub fn generate(&self) -> (codes: Vec<String>)
        ensures
            codes@.len() == self.spec_count(),
            forall|i: int| 0 <= i < codes@.len() ==> (#[trigger] codes@[i])@.len()
                == self.spec_code_length(),
            forall|i: int, j: int|
                0 <= i < codes@.len() && 0 <= j < (#[trigger] codes@[i])@.len() ==> is_dec_char(
                    #[trigger] codes@[i]@[j],
                ),
    {
        let mut codes: Vec<String> = Vec::new();
        let mut n: usize = 0;
        while n < self.count
            invariant
                n <= self.count,
                codes@.len() == n,
                forall|i: int| 0 <= i < n ==> (#[trigger] codes@[i])@.len() == self.code_length,
                forall|i: int, j: int|
                    0 <= i < n && 0 <= j < (#[trigger] codes@[i])@.len() ==> is_dec_char(
                        #[trigger] codes@[i]@[j],
                    ),
            decreases self.count - n,
        {
            let mut code = String::new();
            let mut k: usize = 0;
            while k < self.code_length
                invariant
                    k <= self.code_length,
                    code@.len() == k,
                    forall|j: int| 0 <= j < k ==> is_dec_char(#[trigger] code@[j]),
                decreases self.code_length - k,
            {
                let d = random_digit();
                code.append(digit_str(d));
                k = k + 1;
            }
            codes.push(code);
            n = n + 1;
        }
        codes
    }

    /// True exactly when `code` is, character for character, a member of
    /// `backup_codes`. No normalization of case or whitespace is performed.
    pub fn is_valid(&self, code: &str, backup_codes: &[String]) -> (r: bool)
        ensures
            r == exists|i: int| 0 <= i < backup_codes@.len() && (#[trigger] backup_codes@[i])@
                == code@,
    {
        let presented = code.to_owned();
        let mut i: usize = 0;
        while i < backup_codes.len()
            invariant
                i <= backup_codes@.len(),
                presented@ == code@,
                forall|k: int| 0 <= k < i ==> (#[trigger] backup_codes@[k])@ != code@,
            decreases backup_codes@.len() - i,
        {
            if backup_codes[i] == presented {
                return true;
            }
            i = i + 1;
        }
        false
    }
}

} // verus!
