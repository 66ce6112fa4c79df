use vstd::prelude::*;

verus! {

/// Three single-precision numbers, each held by its IEEE-754 bit pattern.
#[derive(Clone, Copy, Debug, PartialEq, Eq, Structural)]
pub struct Vec3 {
    pub x: u32,
    pub y: u32,
    pub z: u32,
}

impl Vec3 {
    pub fn new(x: u32, y: u32, z: u32) -> (r: Self)
        ensures
            r == (Vec3 { x, y, z }),
    {
        Vec3 { x, y, z }
    }
}

/// A rotation as a quaternion: vector part `v` and scalar part `s`, each
/// component a single-precision number held by its bit pattern.
#[derive(Clone, Copy, Debug, PartialEq, Eq, Structural)]
pub struct Quaternion {
    pub v: Vec3,
    pub s: u32,
}

/// A four-by-four matrix of single-precision numbers, held by their bit
/// patterns, column by column: as a uniform buffer holds it.
#[derive(Clone, Copy, Debug, PartialEq, Eq)]
pub struct TransformUniform {
    pub transform: [[u32; 4]; 4],
}

impl TransformUniform {
    /// The sixteen numbers in buffer order: first column first.
    pub open spec fn words(self) -> Seq<u32> {
        Seq::new(16, |i: int| self.transform[i / 4][i % 4])
    }

    /// The sixteen numbers in buffer order.
    pub fn to_words(&self) -> (r: Vec<u32>)
        ensures
            r@ == self.words(),
    {
        let mut r: Vec<u32> = Vec::new();
        let mut c: usize = 0;
        while c < 4
            invariant
                c <= 4,
                r@.len() == 4 * c,
                forall|i: int| 0 <= i < r@.len() ==> (#[trigger] r@[i]) == self.transform[i / 4][i % 4],
            decreases 4 - c,
        {
            let column = self.transform[c];
            r.push(column[0]);
            r.push(column[1]);
            r.push(column[2]);
            r.push(column[3]);
            c += 1;
        }
        assert(r@ =~= self.words());
        r
    }
}

} // verus!
