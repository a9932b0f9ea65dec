//! The problem descriptions of the CEC 2019 "100-Digit Challenge" suite:
//! which function a number names, its dimension, its search box and its name.

use vstd::prelude::*;

verus! {

/// The dimension of CEC 2019 function `func_num`.
pub open spec fn cec2019_dimensions(func_num: nat) -> nat {
    if func_num == 1 {
        9
    } else if func_num == 2 {
        16
    } else if func_num == 3 {
        18
    } else {
        10
    }
}

/// The half-width of the search box of CEC 2019 function `func_num`: every
/// coordinate ranges over `[-m, m]`.
pub open spec fn cec2019_bound_magnitude(func_num: nat) -> int {
    if func_num == 1 {
        8192
    } else if func_num == 2 {
        16384
    } else if func_num == 3 {
        4
    } else {
        100
    }
}

/// The name of CEC 2019 function `func_num`.
pub open spec fn cec2019_name(func_num: nat) -> Seq<char> {
    if func_num == 1 {
        "F1: Storn's Chebyshev Polynomial Fitting Problem"@
    } else if func_num == 2 {
        "F2: Inverse Hilbert Matrix Problem"@
    } else if func_num == 3 {
        "F3: Lennard-Jones Minimum Energy Cluster Problem"@
    } else if func_num == 4 {
        "F4: Shifted Rotated Rastrigin's Function"@
    } else if func_num == 5 {
        "F5: Shifted Rotated Griewank's Function"@
    } else if func_num == 6 {
        "F6: Shifted Rotated Weierstrass Function"@
    } else if func_num == 7 {
        "F7: Shifted Rotated Schwefel's Function"@
    } else if func_num == 8 {
        "F8: Shifted Rotated Expanded Schaffer's F6 Function"@
    } else if func_num == 9 {
        "F9: Shifted Rotated HappyCat Function"@
    } else {
        "F10: Shifted Rotated Ackley Function"@
    }
}

/// One function of the CEC 2019 suite, numbered 1 to 10.
pub struct Cec2019 {
    func_num: usize,
    dim: usize,
}

impl Cec2019 {
    #[verifier::type_invariant]
    spec fn well_formed(&self) -> bool {
        &&& 1 <= self.func_num <= 10
        &&& self.dim == cec2019_dimensions(self.func_num as nat)
    }

    /// The number of the function, from 1 to 10.
    pub closed spec fn spec_function_number(&self) -> nat {
        self.func_num as nat
    }

    /// The problem for function `func_num`, which must be one of 1 to 10.
    pub fn new(func_num: usize) -> (p: Self)
        requires
            1 <= func_num <= 10,
        ensures
            p.spec_function_number() == func_num,
    {
        let dim: usize = match func_num {
            1 => 9,
            2 => 16,
            3 => 18,
            _ => 10,
        };
        Self { func_num, dim }
    }

    pub fn dimensions(&self) -> (d: usize)
        ensures
            d == cec2019_dimensions(self.spec_function_number()),
    {
        proof {
            use_type_invariant(self);
        }
        self.dim
    }

    pub fn function_number(&self) -> (n: usize)
        ensures
            n == self.spec_function_number(),
            1 <= n <= 10,
    {
        proof {
            use_type_invariant(self);
        }
        self.func_num
    }

    /// The lower and upper bounds of the search box, one of each per
    /// coordinate.
    pub fn bounds(&self) -> (b: (Vec<i64>, Vec<i64>))
        ensures
            b.0.len() == cec2019_dimensions(self.spec_function_number()),
            b.1.len() == cec2019_dimensions(self.spec_function_number()),
            forall|i: int|
                0 <= i < b.0.len() ==> b.0[i] == -cec2019_bound_magnitude(
                    self.spec_function_number(),
                ),
            forall|i: int|
                0 <= i < b.1.len() ==> b.1[i] == cec2019_bound_magnitude(
                    self.spec_function_number(),
                ),
    {
        proof {
            use_type_invariant(self);
        }
        let (magnitude, dim): (i64, usize) = match self.func_num {
            1 => (8192, 9),
            2 => (16384, 16),
            3 => (4, 18),
            _ => (100, 10),
        };
        let mut lower: Vec<i64> = Vec::new();
        let mut upper: Vec<i64> = Vec::new();
        let mut i: usize = 0;
        while i < dim
            invariant
                i <= dim,
                lower.len() == i,
                upper.len() == i,
                forall|j: int| 0 <= j < i ==> lower[j] == -magnitude,
                forall|j: int| 0 <= j < i ==> upper[j] == magnitude,
                magnitude == 8192 || magnitude == 16384 || magnitude == 4 || magnitude == 100,
            decreases dim - i,
        {
            lower.push(-magnitude);
            upper.push(magnitude);
            i = i + 1;
        }
        (lower, upper)
    }

    pub fn name(&self) -> (n: &'static str)
        ensures
            n@ == cec2019_name(self.spec_function_number()),
    {
        proof {
            use_type_invariant(self);
        }
        match self.func_num {
            1 => "F1: Storn's Chebyshev Polynomial Fitting Problem",
            2 => "F2: Inverse Hilbert Matrix Problem",
            3 => "F3: Lennard-Jones Minimum Energy Cluster Problem",
            4 => "F4: Shifted Rotated Rastrigin's Function",
            5 => "F5: Shifted Rotated Griewank's Function",
            6 => "F6: Shifted Rotated Weierstrass Function",
            7 => "F7: Shifted Rotated Schwefel's Function",
            8 => "F8: Shifted Rotated Expanded Schaffer's F6 Function",
            9 => "F9: Shifted Rotated HappyCat Function",
            _ => "F10: Shifted Rotated Ackley Function",
        }
    }

    pub fn suite_name(&self) -> (n: &'static str)
        ensures
            n@ == "CEC 2019 Benchmark Suite"@,
    {
        "CEC 2019 Benchmark Suite"
    }
}

} // verus!
