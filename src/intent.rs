use vstd::prelude::*;

verus! {

/// Rendering intent: the policy for mapping colours that are out of range.
#[derive(Debug, Copy, Clone, PartialEq, Eq, Structural, Hash)]
pub enum Intent {
    Perceptual,
    RelativeColorimetric,
    Saturation,
    AbsoluteColorimetric,
    PreserveKOnlyPerceptual,
    PreserveKOnlyRelativeColorimetric,
    PreserveKOnlySaturation,
    PreserveKPlanePerceptual,
    PreserveKPlaneRelativeColorimetric,
    PreserveKPlaneSaturation,
}

/// The intent the engine numbers `c`, if any.
pub open spec fn intent_of_code(c: u32) -> Option<Intent> {
    if c == 0 {
        Some(Intent::Perceptual)
    } else if c == 1 {
        Some(Intent::RelativeColorimetric)
    } else if c == 2 {
        Some(Intent::Saturation)
    } else if c == 3 {
        Some(Intent::AbsoluteColorimetric)
    } else if c == 10 {
        Some(Intent::PreserveKOnlyPerceptual)
    } else if c == 11 {
        Some(Intent::PreserveKOnlyRelativeColorimetric)
    } else if c == 12 {
        Some(Intent::PreserveKOnlySaturation)
    } else if c == 13 {
        Some(Intent::PreserveKPlanePerceptual)
    } else if c == 14 {
        Some(Intent::PreserveKPlaneRelativeColorimetric)
    } else if c == 15 {
        Some(Intent::PreserveKPlaneSaturation)
    } else {
        None
    }
}

impl Intent {
    /// The engine's number for the intent.
    pub open spec fn spec_code(self) -> u32 {
        match self {
            Intent::Perceptual => 0,
            Intent::RelativeColorimetric => 1,
            Intent::Saturation => 2,
            Intent::AbsoluteColorimetric => 3,
            Intent::PreserveKOnlyPerceptual => 10,
            Intent::PreserveKOnlyRelativeColorimetric => 11,
            Intent::PreserveKOnlySaturation => 12,
            Intent::PreserveKPlanePerceptual => 13,
            Intent::PreserveKPlaneRelativeColorimetric => 14,
            Intent::PreserveKPlaneSaturation => 15,
        }
    }

    /// The engine's number for the intent.
    pub fn code(&self) -> (r: u32)
        ensures
            r == self.spec_code(),
            intent_of_code(r) == Some(*self),
    {
        match self {
            Intent::Perceptual => 0,
            Intent::RelativeColorimetric => 1,
            Intent::Saturation => 2,
            Intent::AbsoluteColorimetric => 3,
            Intent::PreserveKOnlyPerceptual => 10,
            Intent::PreserveKOnlyRelativeColorimetric => 11,
            Intent::PreserveKOnlySaturation => 12,
            Intent::PreserveKPlanePerceptual => 13,
            Intent::PreserveKPlaneRelativeColorimetric => 14,
            Intent::PreserveKPlaneSaturation => 15,
        }
    }

    /// The intent the engine numbers `c`, if any.
    pub fn from_code(c: u32) -> (r: Option<Intent>)
        ensures
            r == intent_of_code(c),
            r matches Some(i) ==> i.spec_code() == c,
    {
        if c == 0 {
            Some(Intent::Perceptual)
        } else if c == 1 {
            Some(Intent::RelativeColorimetric)
        } else if c == 2 {
            Some(Intent::Saturation)
        } else if c == 3 {
            Some(Intent::AbsoluteColorimetric)
        } else if c == 10 {
            Some(Intent::PreserveKOnlyPerceptual)
        } else if c == 11 {
            Some(Intent::PreserveKOnlyRelativeColorimetric)
        } else if c == 12 {
            Some(Intent::PreserveKOnlySaturation)
        } else if c == 13 {
            Some(Intent::PreserveKPlanePerceptual)
        } else if c == 14 {
            Some(Intent::PreserveKPlaneRelativeColorimetric)
        } else if c == 15 {
            Some(Intent::PreserveKPlaneSaturation)
        } else {
            None
        }
    }
}

/// The known intents among `codes`, in order, each with its position.
pub open spec fn known_intents(codes: Seq<u32>) -> Seq<(Intent, usize)>
    decreases codes.len(),
{
    if codes.len() == 0 {
        Seq::empty()
    } else {
        let rest = known_intents(codes.drop_last());
        match intent_of_code(codes.last()) {
            Some(i) => rest.push((i, (codes.len() - 1) as usize)),
            None => rest,
        }
    }
}

/// The intents the engine reported: of the first `count` codes (no more than
/// `codes` holds), those that name a known intent, in order, each with its
/// position, so that the caller can pair it with its description.
pub fn reported_intents(codes: &[u32], count: u32) -> (r: Vec<(Intent, usize)>)
    ensures
        r@ == known_intents(
            codes@.subrange(
                0,
                if (count as int) < codes@.len() {
                    count as int
                } else {
                    codes@.len() as int
                },
            ),
        ),
{
    let n: usize = if (count as usize) < codes.len() {
        count as usize
    } else {
        codes.len()
    };
    let mut out: Vec<(Intent, usize)> = Vec::new();
    let mut i: usize = 0;
    while i < n
        invariant
            n <= codes@.len(),
            i <= n,
            out@ == known_intents(codes@.subrange(0, i as int)),
        decreases n - i,
    {
        assert(codes@.subrange(0, i + 1).drop_last() == codes@.subrange(0, i as int));
        match Intent::from_code(codes[i]) {
            Some(intent) => out.push((intent, i)),
            None => {},
        }
        i = i + 1;
    }
    out
}

} // verus!
