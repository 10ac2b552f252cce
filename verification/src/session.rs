//! The per-connection state that the registry keeps.

use vstd::prelude::*;

verus! {

/// A point in time: nanoseconds on a monotonic clock whose origin the
/// embedding program picks once, at start-up.
pub type Nanos = u64;

/// The dimensions of a render surface, in character cells.
#[derive(Clone, Copy, Debug, PartialEq, Eq, Structural)]
pub struct Area {
    /// Columns.
    pub width: u16,
    /// Rows.
    pub height: u16,
}

/// The cells that a surface gets along one axis when the client reports
/// `extent`: the low sixteen bits of the report.
pub open spec fn cells(extent: u32) -> u16 {
    (extent % 0x1_0000) as u16
}

impl Area {
    /// The surface of a session that has not been sized yet.
    pub open spec fn empty() -> Area {
        Area { width: 0, height: 0 }
    }

    /// Computes [`Area::empty`].
    pub fn new() -> (area: Area)
        ensures
            area == Area::empty(),
    {
        Area { width: 0, height: 0 }
    }

    /// The surface for a client that reports `col_width` columns and
    /// `row_height` rows.
    pub open spec fn reported(col_width: u32, row_height: u32) -> Area {
        Area { width: cells(col_width), height: cells(row_height) }
    }

    /// Computes [`Area::reported`].
    pub fn from_report(col_width: u32, row_height: u32) -> (area: Area)
        ensures
            area == Area::reported(col_width, row_height),
    {
        Area { width: (col_width % 0x1_0000) as u16, height: (row_height % 0x1_0000) as u16 }
    }
}

/// One live session. `R` is whatever the embedding program keeps for the
/// connection: the drawing surface, the hosted application, the handle of
/// the transport channel. The rules here never look inside it.
#[derive(Debug, PartialEq, Eq)]
pub struct Session<R> {
    /// When the last translated key arrived.
    pub last_activity: Nanos,
    /// The recorded dimensions of the render surface.
    pub area: Area,
    /// The connection's resources.
    pub resources: R,
}

impl<R> Session<R> {
    /// The session as it is right after the connection opened at `now`:
    /// an empty render surface and no input yet.
    pub open spec fn opened_at(now: Nanos, resources: R) -> Session<R> {
        Session { last_activity: now, area: Area::empty(), resources }
    }

    /// A fresh session for a connection that opened at `now`.
    pub fn new(now: Nanos, resources: R) -> (session: Session<R>)
        ensures
            session == Session::opened_at(now, resources),
    {
        Session { last_activity: now, area: Area::new(), resources }
    }

    /// The session after a translated key arrived at `now`.
    pub open spec fn touched_at(self, now: Nanos) -> Session<R> {
        Session { last_activity: now, area: self.area, resources: self.resources }
    }

    /// The session after its render surface was given the dimensions `area`.
    pub open spec fn resized_to(self, area: Area) -> Session<R> {
        Session { last_activity: self.last_activity, area, resources: self.resources }
    }

    /// The session with `resources` in place of its own, and everything
    /// else as it is.
    pub open spec fn holding(self, resources: R) -> Session<R> {
        Session { last_activity: self.last_activity, area: self.area, resources }
    }

    /// How long the session has gone without input at `now`. A clock reading
    /// older than the last input counts as no time at all.
    pub open spec fn idle_for(self, now: Nanos) -> nat {
        if now >= self.last_activity {
            (now - self.last_activity) as nat
        } else {
            0
        }
    }

    /// Computes [`Session::idle_for`].
    pub fn idle_time(&self, now: Nanos) -> (idle: Nanos)
        ensures
            idle == self.idle_for(now),
    {
        if now >= self.last_activity {
            now - self.last_activity
        } else {
            0
        }
    }
}

} // verus!
