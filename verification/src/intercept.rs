//! The probe: what happens each time the instrumented instruction runs.

use vstd::prelude::*;
use crate::config::{Comparison, Filter, InterceptConfig, InterceptView};
use crate::registers::{RegisterSnapshot, as_address, to_address};
use crate::slot::{PointerSlot, PointerUpdate, published};

verus! {

/// What one hit of a probe configured as `config`, with the registers `ctx`,
/// does to a slot that holds `held`: the slot's new content, and the change to
/// report where there is one. A hit that the filter turns down does nothing.
pub open spec fn hit(config: InterceptView, ctx: RegisterSnapshot, held: Option<usize>) -> (
    Option<usize>,
    Option<PointerUpdate>,
) {
    if config.passes(ctx) {
        published(held, config.base_address(ctx))
    } else {
        (held, None)
    }
}

/// The probe attached to the instruction that touches the player position.
#[derive(Debug)]
pub struct GenericCoordinateIntercept {
    pub config: InterceptConfig,
}

impl GenericCoordinateIntercept {
    /// A probe that reads the register and applies the filter of `config`.
    pub fn new(config: InterceptConfig) -> (probe: Self)
        ensures
            probe.config == config,
    {
        GenericCoordinateIntercept { config }
    }

    /// Handles one hit: applies the filter, reads the base address from the
    /// configured register, and publishes it into `slot` where it differs from
    /// what the slot holds. The result is the change to report, if any.
    pub fn on_hit(&self, ctx: &RegisterSnapshot, slot: &mut PointerSlot) -> (update: Option<
        PointerUpdate,
    >)
        ensures
            (final(slot)@, update) == hit(self.config@, *ctx, old(slot)@),
    {
        if let Some(filter) = &self.config.filter {
            if !filter.matches(ctx) {
                return None;
            }
        }
        let base_ptr = to_address(self.config.register.to_value(ctx));
        slot.publish(base_ptr)
    }
}

/// A filtered probe writes the slot exactly where the comparison holds of the
/// captured value: then the slot holds the base address read from the register,
/// and otherwise slot and report are as if no hit had occurred.
pub proof fn lemma_filter_gates_update(
    config: InterceptView,
    filter: Filter,
    ctx: RegisterSnapshot,
    held: Option<usize>,
)
    requires
        config.filter == Some(filter),
    ensures
        filter.comparison.holds(as_address(filter.compare.value_in(ctx)), filter.compare_to) ==> hit(
            config,
            ctx,
            held,
        ).0 == Some(config.base_address(ctx)),
        !filter.comparison.holds(as_address(filter.compare.value_in(ctx)), filter.compare_to) ==> hit(
            config,
            ctx,
            held,
        ) == (held, None::<PointerUpdate>),
        hit(config, ctx, held).0 != held ==> filter.comparison.holds(
            as_address(filter.compare.value_in(ctx)),
            filter.compare_to,
        ),
{
}

/// At the boundary, where the captured value equals the constant, `Equal`
/// holds and the three other comparisons do not.
pub proof fn lemma_comparison_at_boundary(value: usize)
    ensures
        Comparison::Equal.holds(value, value),
        !Comparison::NEqual.holds(value, value),
        !Comparison::Gt.holds(value, value),
        !Comparison::Lt.holds(value, value),
{
}

/// A probe without a filter publishes at every hit.
pub proof fn lemma_unfiltered_hit(config: InterceptView, ctx: RegisterSnapshot, held: Option<usize>)
    requires
        config.filter is None,
    ensures
        hit(config, ctx, held) == published(held, config.base_address(ctx)),
{
}

/// A hit that shows the address which the slot holds already changes nothing
/// and reports nothing; so does every hit after the first one with the same
/// registers.
pub proof fn lemma_hit_idempotent(config: InterceptView, ctx: RegisterSnapshot, held: Option<usize>)
    ensures
        held == Some(config.base_address(ctx)) ==> hit(config, ctx, held) == (
            held,
            None::<PointerUpdate>,
        ),
        hit(config, ctx, hit(config, ctx, held).0) == (hit(config, ctx, held).0, None::<PointerUpdate>),
{
}

} // verus!
