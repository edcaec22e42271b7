//! Topologies: the shape of an attribute's value space, and the blenders
//! that suit it. Values of a bounded (euclidian) space clamp at its limits;
//! values of a ring wrap around them.

use vstd::prelude::*;
use crate::blend::continuous_product;
use crate::blend::fblend_clobber;
use crate::blend::fblend_euclid_bi_add;
use crate::blend::fblend_euclid_bi_subtract;
use crate::blend::fblend_euclid_max;
use crate::blend::fblend_euclid_mean;
use crate::blend::fblend_euclid_min;
use crate::blend::fblend_euclid_multiply;
use crate::blend::fblend_euclid_uni_add;
use crate::blend::fblend_euclid_uni_subtract;
use crate::blend::fblend_ring_bi_add;
use crate::blend::fblend_ring_bi_mean;
use crate::blend::fblend_ring_bi_subtract;
use crate::blend::fblend_ring_uni_add;
use crate::blend::fblend_ring_uni_mean;
use crate::blend::fblend_ring_uni_subtract;
use crate::blend::iblend_clobber;
use crate::blend::ring_bi_mean;
use crate::blend::ring_uni_mean;
use crate::blend::iblend_euclid_add;
use crate::blend::iblend_euclid_max;
use crate::blend::iblend_euclid_median;
use crate::blend::iblend_euclid_min;
use crate::blend::iblend_euclid_subtract;
use crate::blend::iblend_ring_add;
use crate::blend::iblend_ring_median;
use crate::blend::iblend_ring_subtract;
use crate::numeric::half_away_from_zero;
use crate::numeric::limit_bipolar_unit;
use crate::numeric::limit_euclid;
use crate::numeric::limit_unipolar_unit;
use crate::numeric::median_torus;
use crate::numeric::wrap_torus;
use crate::numeric::wrap_torus_bipolar;
use crate::numeric::wrap_torus_unipolar;
use crate::profile::AttributeValue;

verus! {

/// The family of blenders bound to a topology.
#[derive(Clone, Copy, Debug, PartialEq, Eq, Structural)]
pub enum BlenderTable {
    /// Continuous blenders over the bounded range from zero to one.
    ContinuousEuclidianUnipolar,
    /// Continuous blenders over the bounded range from minus one to one.
    ContinuousEuclidianBipolar,
    /// Continuous blenders over the ring from zero to one.
    ContinuousRingUnipolar,
    /// Continuous blenders over the ring from minus one to one.
    ContinuousRingBipolar,
    /// Discrete blenders whose sums, differences and medians wrap.
    DiscreteRing,
    /// Discrete blenders whose sums, differences and medians clamp.
    DiscreteEuclidian,
}

/// The aesthetic intent of a blend, whatever the topology.
#[derive(Clone, Copy, Debug, PartialEq, Eq, Structural)]
pub enum BlendOp {
    Clobber,
    Max,
    Min,
    Median,
    Add,
    Subtract,
    AddModulus,
    SubtractModulus,
    Multiply,
    AbsMax,
    AbsMin,
}

/// A topology: it constrains and shapes the space of an attribute's values.
#[derive(Clone, Copy, Debug, PartialEq, Eq, Structural)]
pub struct Topo {
    /// Continuous (a fraction of the unit) or discrete (an integer).
    pub continuous: bool,
    /// Interpolation is aesthetically encouraged.
    pub blend_encouraged: bool,
    /// Interpolation is logically or mechanically meaningful.
    pub blend_meaningful: bool,
    /// The blenders that suit pairs of values of this topology.
    pub blenders: BlenderTable,
}

/// What blending two discrete values gives under a table, or `None` where
/// the table has no such blender: every continuous table, `Multiply` in any
/// table, and a wrapping blender on an empty ring. A ring wraps its sums,
/// differences and medians under the plain and the modulus blenders alike;
/// a bounded table clamps them alike. Every table binds `AbsMax` and
/// `AbsMin` to the plain maximum and minimum.
pub open spec fn discrete_blend(
    table: BlenderTable,
    op: BlendOp,
    a: int,
    b: int,
    minimum: int,
    maximum: int,
) -> Option<int> {
    match table {
        BlenderTable::DiscreteRing => match op {
            BlendOp::Clobber => Some(a),
            BlendOp::Max | BlendOp::AbsMax => Some(if a >= b { a } else { b }),
            BlendOp::Min | BlendOp::AbsMin => Some(if a < b { a } else { b }),
            BlendOp::Multiply => None,
            BlendOp::Median => if minimum <= maximum {
                Some(median_torus(a, b, minimum, maximum))
            } else {
                None
            },
            BlendOp::Add | BlendOp::AddModulus => if minimum <= maximum {
                Some(wrap_torus(a + b, minimum, maximum))
            } else {
                None
            },
            BlendOp::Subtract | BlendOp::SubtractModulus => if minimum <= maximum {
                Some(wrap_torus(a - b, minimum, maximum))
            } else {
                None
            },
        },
        BlenderTable::DiscreteEuclidian => match op {
            BlendOp::Clobber => Some(a),
            BlendOp::Max | BlendOp::AbsMax => Some(if a >= b { a } else { b }),
            BlendOp::Min | BlendOp::AbsMin => Some(if a < b { a } else { b }),
            BlendOp::Multiply => None,
            BlendOp::Median => Some(limit_euclid(half_away_from_zero(a + b), minimum, maximum)),
            BlendOp::Add | BlendOp::AddModulus => Some(limit_euclid(a + b, minimum, maximum)),
            BlendOp::Subtract | BlendOp::SubtractModulus => Some(
                limit_euclid(a - b, minimum, maximum),
            ),
        },
        _ => None,
    }
}

/// What blending two continuous values gives under a table, or `None` for
/// a discrete table. A bounded table clamps its sums and differences and
/// takes the plain mean; a ring wraps them and takes the mean along the
/// shorter way. The modulus blenders wrap under every table. Every table
/// binds `AbsMax` and `AbsMin` to the plain maximum and minimum.
pub open spec fn continuous_blend(table: BlenderTable, op: BlendOp, a: int, b: int) -> Option<int> {
    let ring = table == BlenderTable::ContinuousRingUnipolar || table
        == BlenderTable::ContinuousRingBipolar;
    let bipolar = table == BlenderTable::ContinuousEuclidianBipolar || table
        == BlenderTable::ContinuousRingBipolar;
    if table == BlenderTable::DiscreteRing || table == BlenderTable::DiscreteEuclidian {
        None
    } else {
        Some(
            match op {
                BlendOp::Clobber => a,
                BlendOp::Max | BlendOp::AbsMax => if a >= b { a } else { b },
                BlendOp::Min | BlendOp::AbsMin => if a < b { a } else { b },
                BlendOp::Multiply => continuous_product(a, b),
                BlendOp::Median => if !ring {
                    half_away_from_zero(a + b)
                } else if bipolar {
                    ring_bi_mean(a, b)
                } else {
                    ring_uni_mean(a, b)
                },
                BlendOp::Add => if ring {
                    if bipolar { wrap_torus_bipolar(a + b) } else { wrap_torus_unipolar(a + b) }
                } else {
                    if bipolar { limit_bipolar_unit(a + b) } else { limit_unipolar_unit(a + b) }
                },
                BlendOp::Subtract => if ring {
                    if bipolar { wrap_torus_bipolar(a - b) } else { wrap_torus_unipolar(a - b) }
                } else {
                    if bipolar { limit_bipolar_unit(a - b) } else { limit_unipolar_unit(a - b) }
                },
                BlendOp::AddModulus => if bipolar {
                    wrap_torus_bipolar(a + b)
                } else {
                    wrap_torus_unipolar(a + b)
                },
                BlendOp::SubtractModulus => if bipolar {
                    wrap_torus_bipolar(a - b)
                } else {
                    wrap_torus_unipolar(a - b)
                },
            },
        )
    }
}

/// What blending two attribute values gives under a table: the blend of
/// the table's own kind of value, or `None` where either value is of the
/// other kind or the table has no such blender.
pub open spec fn value_blend(
    table: BlenderTable,
    op: BlendOp,
    a: AttributeValue,
    b: AttributeValue,
    minimum: int,
    maximum: int,
) -> Option<int> {
    match (a, b) {
        (AttributeValue::Continuous(x), AttributeValue::Continuous(y)) => continuous_blend(
            table,
            op,
            x as int,
            y as int,
        ),
        (AttributeValue::Discrete(x), AttributeValue::Discrete(y)) => discrete_blend(
            table,
            op,
            x as int,
            y as int,
            minimum,
            maximum,
        ),
        _ => None,
    }
}

/// Naturally continuous, bounded, interpolation recommended. Example: a
/// dimmer.
pub fn continuous_euclidian_unipolar() -> (t: Topo)
    ensures
        t == (Topo {
            continuous: true,
            blend_encouraged: true,
            blend_meaningful: true,
            blenders: BlenderTable::ContinuousEuclidianUnipolar,
        }),
{
    Topo {
        continuous: true,
        blend_encouraged: true,
        blend_meaningful: true,
        blenders: BlenderTable::ContinuousEuclidianUnipolar,
    }
}

/// Naturally continuous, bounded, centred on zero. Example: a position on a
/// bounded pivot.
pub fn continuous_euclidian_bipolar() -> (t: Topo)
    ensures
        t == (Topo {
            continuous: true,
            blend_encouraged: true,
            blend_meaningful: true,
            blenders: BlenderTable::ContinuousEuclidianBipolar,
        }),
{
    Topo {
        continuous: true,
        blend_encouraged: true,
        blend_meaningful: true,
        blenders: BlenderTable::ContinuousEuclidianBipolar,
    }
}

/// Naturally continuous, wrapping around the outer limits. Example: an
/// angle of a continuously rotating wheel.
pub fn continuous_ring_unipolar() -> (t: Topo)
    ensures
        t == (Topo {
            continuous: true,
            blend_encouraged: true,
            blend_meaningful: true,
            blenders: BlenderTable::ContinuousRingUnipolar,
        }),
{
    Topo {
        continuous: true,
        blend_encouraged: true,
        blend_meaningful: true,
        blenders: BlenderTable::ContinuousRingUnipolar,
    }
}

/// Naturally continuous, wrapping around the outer limits, centred on zero.
pub fn continuous_ring_bipolar() -> (t: Topo)
    ensures
        t == (Topo {
            continuous: true,
            blend_encouraged: true,
            blend_meaningful: true,
            blenders: BlenderTable::ContinuousRingBipolar,
        }),
{
    Topo {
        continuous: true,
        blend_encouraged: true,
        blend_meaningful: true,
        blenders: BlenderTable::ContinuousRingBipolar,
    }
}

/// Discrete, ordered, wrapping around the outer limits. Example: the slots
/// of an indexed wheel.
pub fn discrete_ring() -> (t: Topo)
    ensures
        t == (Topo {
            continuous: false,
            blend_encouraged: false,
            blend_meaningful: true,
            blenders: BlenderTable::DiscreteRing,
        }),
{
    Topo {
        continuous: false,
        blend_encouraged: false,
        blend_meaningful: true,
        blenders: BlenderTable::DiscreteRing,
    }
}

/// Discrete, ordered, bounded.
pub fn discrete_array() -> (t: Topo)
    ensures
        t == (Topo {
            continuous: false,
            blend_encouraged: false,
            blend_meaningful: true,
            blenders: BlenderTable::DiscreteEuclidian,
        }),
{
    Topo {
        continuous: false,
        blend_encouraged: false,
        blend_meaningful: true,
        blenders: BlenderTable::DiscreteEuclidian,
    }
}

/// Discrete and unordered: blending is possible but has no meaning.
pub fn discrete_set() -> (t: Topo)
    ensures
        t == (Topo {
            continuous: false,
            blend_encouraged: false,
            blend_meaningful: false,
            blenders: BlenderTable::DiscreteEuclidian,
        }),
{
    Topo {
        continuous: false,
        blend_encouraged: false,
        blend_meaningful: false,
        blenders: BlenderTable::DiscreteEuclidian,
    }
}

impl Topo {
    /// Blends two continuous values with the blender that this topology
    /// binds to `op`. `None` where the topology is discrete.
    pub fn blend_continuous(&self, op: BlendOp, a: i64, b: i64) -> (r: Option<i64>)
        ensures
            r.is_some() == continuous_blend(self.blenders, op, a as int, b as int).is_some(),
            r matches Some(v) ==> continuous_blend(self.blenders, op, a as int, b as int) == Some(
                v as int,
            ),
    {
        let (ring, bipolar) = match self.blenders {
            BlenderTable::ContinuousEuclidianUnipolar => (false, false),
            BlenderTable::ContinuousEuclidianBipolar => (false, true),
            BlenderTable::ContinuousRingUnipolar => (true, false),
            BlenderTable::ContinuousRingBipolar => (true, true),
            _ => { return None; },
        };
        let v: i64 = match op {
            BlendOp::Clobber => fblend_clobber(a, b),
            BlendOp::Max | BlendOp::AbsMax => fblend_euclid_max(a, b),
            BlendOp::Min | BlendOp::AbsMin => fblend_euclid_min(a, b),
            BlendOp::Multiply => fblend_euclid_multiply(a, b),
            BlendOp::Median => if !ring {
                fblend_euclid_mean(a, b)
            } else if bipolar {
                fblend_ring_bi_mean(a, b)
            } else {
                fblend_ring_uni_mean(a, b)
            },
            BlendOp::Add => if ring {
                if bipolar { fblend_ring_bi_add(a, b) } else { fblend_ring_uni_add(a, b) }
            } else {
                if bipolar { fblend_euclid_bi_add(a, b) } else { fblend_euclid_uni_add(a, b) }
            },
            BlendOp::Subtract => if ring {
                if bipolar { fblend_ring_bi_subtract(a, b) } else { fblend_ring_uni_subtract(a, b) }
            } else {
                if bipolar {
                    fblend_euclid_bi_subtract(a, b)
                } else {
                    fblend_euclid_uni_subtract(a, b)
                }
            },
            BlendOp::AddModulus => if bipolar {
                fblend_ring_bi_add(a, b)
            } else {
                fblend_ring_uni_add(a, b)
            },
            BlendOp::SubtractModulus => if bipolar {
                fblend_ring_bi_subtract(a, b)
            } else {
                fblend_ring_uni_subtract(a, b)
            },
        };
        Some(v)
    }

    /// Blends two attribute values of this topology's kind with the blender
    /// that the topology binds to `op`; discrete values blend within
    /// `[minimum, maximum]`. `None` where either value is of the other kind
    /// or the topology binds no such blender.
    pub fn blend(
        &self,
        op: BlendOp,
        a: AttributeValue,
        b: AttributeValue,
        minimum: i64,
        maximum: i64,
    ) -> (r: Option<AttributeValue>)
        ensures
            r.is_some() == value_blend(
                self.blenders,
                op,
                a,
                b,
                minimum as int,
                maximum as int,
            ).is_some(),
            r matches Some(AttributeValue::Continuous(v)) ==> a is Continuous && value_blend(
                self.blenders,
                op,
                a,
                b,
                minimum as int,
                maximum as int,
            ) == Some(v as int),
            r matches Some(AttributeValue::Discrete(v)) ==> a is Discrete && value_blend(
                self.blenders,
                op,
                a,
                b,
                minimum as int,
                maximum as int,
            ) == Some(v as int),
    {
        match (a, b) {
            (AttributeValue::Continuous(x), AttributeValue::Continuous(y)) => {
                match self.blend_continuous(op, x, y) {
                    Some(v) => Some(AttributeValue::Continuous(v)),
                    None => None,
                }
            },
            (AttributeValue::Discrete(x), AttributeValue::Discrete(y)) => {
                match self.blend_discrete(op, x, y, minimum, maximum) {
                    Some(v) => Some(AttributeValue::Discrete(v)),
                    None => None,
                }
            },
            _ => None,
        }
    }

    /// Blends two discrete values with the blender that this topology binds
    /// to `op`, within the attribute's range `[minimum, maximum]`. `None`
    /// where the topology binds no such blender.
    pub fn blend_discrete(&self, op: BlendOp, a: i64, b: i64, minimum: i64, maximum: i64) -> (r:
        Option<i64>)
        ensures
            r.is_some() == discrete_blend(
                self.blenders,
                op,
                a as int,
                b as int,
                minimum as int,
                maximum as int,
            ).is_some(),
            r matches Some(v) ==> discrete_blend(
                self.blenders,
                op,
                a as int,
                b as int,
                minimum as int,
                maximum as int,
            ) == Some(v as int),
    {
        let ring = match self.blenders {
            BlenderTable::DiscreteRing => true,
            BlenderTable::DiscreteEuclidian => false,
            _ => { return None; },
        };
        match op {
            BlendOp::Clobber => Some(iblend_clobber(a, b)),
            BlendOp::Max | BlendOp::AbsMax => Some(iblend_euclid_max(a, b)),
            BlendOp::Min | BlendOp::AbsMin => Some(iblend_euclid_min(a, b)),
            BlendOp::Multiply => None,
            BlendOp::Median => if !ring {
                Some(iblend_euclid_median(a, b, minimum, maximum))
            } else if minimum <= maximum {
                Some(iblend_ring_median(a, b, minimum, maximum))
            } else {
                None
            },
            BlendOp::Add | BlendOp::AddModulus => if !ring {
                Some(iblend_euclid_add(a, b, minimum, maximum))
            } else if minimum <= maximum {
                Some(iblend_ring_add(a, b, minimum, maximum))
            } else {
                None
            },
            BlendOp::Subtract | BlendOp::SubtractModulus => if !ring {
                Some(iblend_euclid_subtract(a, b, minimum, maximum))
            } else if minimum <= maximum {
                Some(iblend_ring_subtract(a, b, minimum, maximum))
            } else {
                None
            },
        }
    }
}

} // verus!
