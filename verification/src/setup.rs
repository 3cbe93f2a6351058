use vstd::prelude::*;

verus! {

/// A display mode as enumerated from a physical connector.
#[derive(Clone, Copy, PartialEq, Eq, Structural, Debug)]
pub struct ModeInfo {
    pub width: u32,
    pub height: u32,
    /// Vertical refresh in millihertz.
    pub refresh_millihertz: u32,
}

/// One physical connector and the modes it exposes, as enumerated from the
/// kernel display subsystem by the embedding process.
pub struct ConnectorInfo {
    pub connector_id: u32,
    pub modes: Vec<ModeInfo>,
}

/// The role of one hardware plane on the chosen CRTC.
#[derive(Clone, Copy, PartialEq, Eq, Structural, Debug)]
pub enum PlaneKind {
    Primary,
    Overlay,
    Cursor,
}

/// One hardware plane available for the output.
#[derive(Clone, Copy, PartialEq, Eq, Structural, Debug)]
pub struct PlaneInfo {
    pub plane_id: u32,
    pub kind: PlaneKind,
}

/// Startup discovery failed; fatal to process start, never recovered from
/// at runtime.
#[derive(Clone, Copy, PartialEq, Eq, Structural, Debug)]
pub enum SetupError {
    /// No connector exposes a usable mode.
    NoUsableConnector,
    /// The CRTC offers no primary plane to claim.
    NoPrimaryPlane,
}

/// Orientation of the output's content.
#[derive(Clone, Copy, PartialEq, Eq, Structural, Debug)]
pub enum OutputTransform {
    Normal,
    Rotated90,
    Rotated180,
    Rotated270,
    Flipped,
    Flipped90,
    Flipped180,
    Flipped270,
}

/// Physical mode, transform and logical placement of the single managed
/// output. Set once at startup.
#[derive(Clone, Copy, PartialEq, Eq, Structural, Debug)]
pub struct OutputDescriptor {
    pub mode: ModeInfo,
    pub transform: OutputTransform,
    pub position_x: i32,
    pub position_y: i32,
}

/// The outcome of startup discovery: which connector to bind, in which
/// mode, on which plane.
#[derive(Clone, Copy, PartialEq, Eq, Structural, Debug)]
pub struct SetupPlan {
    pub connector_index: usize,
    pub mode: ModeInfo,
    pub plane_id: u32,
}

/// A connector is usable when it exposes at least one mode.
pub open spec fn usable(c: ConnectorInfo) -> bool {
    c.modes@.len() > 0
}

/// Choose the hardware binding for the output: the first connector that
/// exposes a usable mode, that connector's first (preferred) mode, and the
/// first primary plane. Failure at either step is a fatal setup error:
/// `NoUsableConnector` when every connector is bare, else `NoPrimaryPlane`
/// when no plane has the primary role.
pub fn plan_setup(connectors: &Vec<ConnectorInfo>, planes: &Vec<PlaneInfo>) -> (r: Result<
    SetupPlan,
    SetupError,
>)
    ensures
        match r {
            Ok(plan) => {
                &&& plan.connector_index < connectors@.len()
                &&& usable(connectors@[plan.connector_index as int])
                &&& forall|j: int| 0 <= j < plan.connector_index ==> !usable(connectors@[j])
                &&& plan.mode == connectors@[plan.connector_index as int].modes@[0]
                &&& exists|p: int|
                    0 <= p < planes@.len() && planes@[p].kind is Primary && planes@[p].plane_id
                        == plan.plane_id && (forall|q: int|
                        0 <= q < p ==> !(planes@[q].kind is Primary))
            },
            Err(e) => {
                &&& e is NoUsableConnector ==> forall|j: int|
                    0 <= j < connectors@.len() ==> !usable(connectors@[j])
                &&& e is NoPrimaryPlane ==> (exists|j: int|
                    0 <= j < connectors@.len() && usable(connectors@[j])) && (forall|q: int|
                    0 <= q < planes@.len() ==> !(planes@[q].kind is Primary))
            },
        },
{
    let n = connectors.len();
    let mut i: usize = 0;
    while i < n
        invariant
            n == connectors@.len(),
            i <= n,
            forall|j: int| 0 <= j < i ==> !usable(connectors@[j]),
        decreases n - i,
    {
        if connectors[i].modes.len() > 0 {
            let mode = connectors[i].modes[0];
            let m = planes.len();
            let mut p: usize = 0;
            while p < m
                invariant
                    m == planes@.len(),
                    p <= m,
                    n == connectors@.len(),
                    i < n,
                    usable(connectors@[i as int]),
                    mode == connectors@[i as int].modes@[0],
                    forall|j: int| 0 <= j < i ==> !usable(connectors@[j]),
                    forall|q: int| 0 <= q < p ==> !(planes@[q].kind is Primary),
                decreases m - p,
            {
                if matches!(planes[p].kind, PlaneKind::Primary) {
                    let plane_id = planes[p].plane_id;
                    proof {
                        assert(0 <= p < planes@.len() && planes@[p as int].kind is Primary
                            && planes@[p as int].plane_id == plane_id && (forall|q: int|
                            0 <= q < p ==> !(planes@[q].kind is Primary)));
                    }
                    return Ok(SetupPlan { connector_index: i, mode, plane_id });
                }
                p = p + 1;
            }
            return Err(SetupError::NoPrimaryPlane);
        }
        i = i + 1;
    }
    Err(SetupError::NoUsableConnector)
}

impl OutputDescriptor {
    /// Describe the output as bound at startup.
    pub fn new(mode: ModeInfo, transform: OutputTransform, position_x: i32, position_y: i32) -> (d:
        OutputDescriptor)
        ensures
            d.mode == mode,
            d.transform == transform,
            d.position_x == position_x,
            d.position_y == position_y,
    {
        OutputDescriptor { mode, transform, position_x, position_y }
    }
}

} // verus!
