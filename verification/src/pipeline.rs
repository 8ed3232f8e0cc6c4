//! The pipeline a producer emits into: the minimum-level floor, the two
//! filtered file sinks, and the unfiltered console sinks.
//!
//! `emit` is the producer interface: a record below the floor is discarded
//! before any sink is considered; one that passes goes to every enabled
//! console sink and to exactly the file sink its origin tag routes to.

use vstd::prelude::*;
use crate::classify::{classify, classify_tag, SinkId};
use crate::level::{level_passes, passes_floor, Level};
use crate::sink::{needs_rotation, spec_write, Sink};

verus! {

/// What one `emit` call did: the file sink the record was routed to
/// (`None` when the record fell below the minimum level and was discarded),
/// and whether that sink rotated its file first. A caller driving real
/// files applies exactly this outcome to the file system.
#[derive(Clone, Copy, PartialEq, Eq, Debug)]
pub struct EmitOutcome {
    pub target: Option<SinkId>,
    pub did_rotate: bool,
}

/// The whole logging subsystem as one owned value: created once at process
/// start and handed by reference to every producer.
pub struct Pipeline {
    pub min_level: Level,
    pub backend: Sink,
    pub frontend: Sink,
    pub console_enabled: bool,
    pub ui_console_enabled: bool,
    pub console: Vec<Vec<u8>>,
    pub ui_console: Vec<Vec<u8>>,
}

impl Pipeline {
    pub open spec fn wf(self) -> bool {
        self.backend.wf() && self.frontend.wf()
    }

    /// A fresh pipeline: both file sinks empty under the given size limit,
    /// console sinks empty, nothing rotated yet.
    pub fn new(
        min_level: Level,
        max_size_bytes: usize,
        console_enabled: bool,
        ui_console_enabled: bool,
    ) -> (p: Pipeline)
        ensures
            p.wf(),
            p.min_level == min_level,
            p.console_enabled == console_enabled,
            p.ui_console_enabled == ui_console_enabled,
            p.backend@.max == max_size_bytes,
            p.frontend@.max == max_size_bytes,
            p.backend@.current == Seq::<Seq<u8>>::empty(),
            p.frontend@.current == Seq::<Seq<u8>>::empty(),
            p.backend@.rotated == Seq::<Seq<Seq<u8>>>::empty(),
            p.frontend@.rotated == Seq::<Seq<Seq<u8>>>::empty(),
            p.console.deep_view() == Seq::<Seq<u8>>::empty(),
            p.ui_console.deep_view() == Seq::<Seq<u8>>::empty(),
    {
        let p = Pipeline {
            min_level,
            backend: Sink::new(max_size_bytes),
            frontend: Sink::new(max_size_bytes),
            console_enabled,
            ui_console_enabled,
            console: Vec::new(),
            ui_console: Vec::new(),
        };
        proof {
            assert(p.console.deep_view() =~= Seq::<Seq<u8>>::empty());
            assert(p.ui_console.deep_view() =~= Seq::<Seq<u8>>::empty());
        }
        p
    }

    /// The producer interface: route one record. A record below the
    /// minimum level is discarded and nothing changes. A record that
    /// passes is appended to every enabled console sink and written to
    /// exactly the file sink its origin tag routes to; the other file sink
    /// is untouched. The outcome reports the routed sink and whether it
    /// rotated, so the caller can mirror the write onto real files.
    pub fn emit(&mut self, origin_tag: &str, level: Level, record: Vec<u8>) -> (out: EmitOutcome)
        requires
            old(self).wf(),
        ensures
            final(self).wf(),
            final(self).min_level == old(self).min_level,
            final(self).console_enabled == old(self).console_enabled,
            final(self).ui_console_enabled == old(self).ui_console_enabled,
            !passes_floor(old(self).min_level, level) ==> *final(self) == *old(self)
                && out.target is None && !out.did_rotate,
            passes_floor(old(self).min_level, level) ==> {
                &&& out.target == Some(classify(origin_tag@))
                &&& classify(origin_tag@) == SinkId::Backend ==> {
                    &&& final(self).backend@ == spec_write(old(self).backend@, record@)
                    &&& final(self).frontend == old(self).frontend
                    &&& out.did_rotate == needs_rotation(old(self).backend@, record@)
                }
                &&& classify(origin_tag@) == SinkId::Frontend ==> {
                    &&& final(self).frontend@ == spec_write(old(self).frontend@, record@)
                    &&& final(self).backend == old(self).backend
                    &&& out.did_rotate == needs_rotation(old(self).frontend@, record@)
                }
                &&& old(self).console_enabled ==> final(self).console.deep_view()
                    == old(self).console.deep_view().push(record@)
                &&& !old(self).console_enabled ==> final(self).console == old(self).console
                &&& old(self).ui_console_enabled ==> final(self).ui_console.deep_view()
                    == old(self).ui_console.deep_view().push(record@)
                &&& !old(self).ui_console_enabled ==> final(self).ui_console
                    == old(self).ui_console
            },
    {
        if !level_passes(self.min_level, level) {
            return EmitOutcome { target: None, did_rotate: false };
        }
        if self.console_enabled {
            let c = crate::copy_bytes(&record);
            self.console.push(c);
            proof {
                assert(c.deep_view() =~= record@);
                assert(self.console.deep_view() =~= old(self).console.deep_view().push(record@));
            }
        }
        if self.ui_console_enabled {
            let c = crate::copy_bytes(&record);
            self.ui_console.push(c);
            proof {
                assert(c.deep_view() =~= record@);
                assert(self.ui_console.deep_view()
                    =~= old(self).ui_console.deep_view().push(record@));
            }
        }
        let target = classify_tag(origin_tag);
        let did_rotate = match target {
            SinkId::Backend => self.backend.write(record),
            SinkId::Frontend => self.frontend.write(record),
        };
        EmitOutcome { target: Some(target), did_rotate }
    }
}

} // verus!
