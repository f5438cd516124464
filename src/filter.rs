use vstd::prelude::*;

use crate::level::Level;

verus! {

/// Whether a record of `level` passes both floors. `None` as the compile
/// floor turns every level off.
pub open spec fn enabled(compile_floor: Option<Level>, runtime_floor: Level, level: Level) -> bool {
    &&& compile_floor is Some
    &&& level.rank() >= compile_floor->0.rank()
    &&& level.rank() >= runtime_floor.rank()
}

/// The stricter (higher) of two levels.
pub open spec fn stricter(a: Level, b: Level) -> Level {
    if a.rank() >= b.rank() {
        a
    } else {
        b
    }
}

/// What a filter is: a floor fixed when it is made, and one that can be moved.
pub struct FilterModel {
    pub compile_floor: Option<Level>,
    pub runtime_floor: Level,
}

impl FilterModel {
    pub open spec fn is_enabled(self, level: Level) -> bool {
        enabled(self.compile_floor, self.runtime_floor, level)
    }

    /// The lowest level that passes, or `None` when nothing does.
    pub open spec fn min_level(self) -> Option<Level> {
        match self.compile_floor {
            Some(c) => Some(stricter(c, self.runtime_floor)),
            None => None,
        }
    }

    pub open spec fn with_runtime_floor(self, level: Level) -> FilterModel {
        FilterModel { runtime_floor: level, ..self }
    }
}

/// The level filter: a compile floor fixed for the filter's lifetime, and a
/// runtime floor that can only narrow what the compile floor lets through.
#[derive(Clone, Copy)]
pub struct Filter {
    compile_floor: Option<Level>,
    runtime_floor: Level,
}

impl View for Filter {
    type V = FilterModel;

    closed spec fn view(&self) -> FilterModel {
        FilterModel { compile_floor: self.compile_floor, runtime_floor: self.runtime_floor }
    }
}

impl Filter {
    /// A filter with the given compile floor (`None`: everything off) and the
    /// most permissive runtime floor.
    pub fn new(compile_floor: Option<Level>) -> (r: Filter)
        ensures
            r@ == (FilterModel { compile_floor, runtime_floor: Level::Trace }),
    {
        Filter { compile_floor, runtime_floor: Level::Trace }
    }

    /// Whether a record of `level` passes the filter.
    pub fn is_enabled(&self, level: Level) -> (r: bool)
        ensures
            r == enabled(self@.compile_floor, self@.runtime_floor, level),
    {
        match self.compile_floor {
            None => false,
            Some(floor) => {
                let rank = level.as_u8();
                rank >= floor.as_u8() && rank >= self.runtime_floor.as_u8()
            },
        }
    }
}

/// Sets the runtime floor. Levels below the compile floor stay off whatever
/// the runtime floor is.
pub fn set_min_level(filter: &mut Filter, level: Level)
    ensures
        final(filter)@ == old(filter)@.with_runtime_floor(level),
{
    filter.runtime_floor = level;
}

/// The effective floor: the stricter of the compile and runtime floors, or
/// `None` when the compile floor turns everything off.
pub fn get_min_level(filter: &Filter) -> (r: Option<Level>)
    ensures
        r == filter@.min_level(),
{
    let compile_time = match filter.compile_floor {
        Some(floor) => floor.as_u8(),
        None => return None,
    };
    let runtime = filter.runtime_floor.as_u8();
    let level = if compile_time >= runtime {
        compile_time
    } else {
        runtime
    };
    Level::from_u8(level)
}

} // verus!
