//! A device: its profiles and routes, reconciled against the graph's
//! enumerations, and the requests that select a profile or a route.

use vstd::prelude::*;
use crate::pod::{
    find_field, id_of, index_object, int_of, ints_of, is_index_object, lemma_missing_field_is_absent,
    query_index, queried_index, string_of, ParamKind, ParamWrite, Pod, PodObject, Schema,
};

verus! {

/// The direction of a route. On the wire it is an id: input 0, output 1.
#[derive(Clone, Copy, Debug, PartialEq, Eq, Structural)]
pub enum RouteDirection {
    Input,
    Output,
}

pub open spec fn direction_of_id(id: u32) -> Option<RouteDirection> {
    if id == 0 {
        Some(RouteDirection::Input)
    } else if id == 1 {
        Some(RouteDirection::Output)
    } else {
        None
    }
}

impl RouteDirection {
    pub fn from_id(id: u32) -> (r: Option<RouteDirection>)
        ensures
            r == direction_of_id(id),
    {
        if id == 0 {
            Some(RouteDirection::Input)
        } else if id == 1 {
            Some(RouteDirection::Output)
        } else {
            None
        }
    }

    pub fn id(self) -> (r: u32)
        ensures
            direction_of_id(r) == Some(self),
    {
        match self {
            RouteDirection::Input => 0,
            RouteDirection::Output => 1,
        }
    }
}

/// What a profile entry holds.
pub struct ProfileInfo {
    pub index: i32,
    pub description: Seq<char>,
    pub available: u32,
}

/// What a route entry holds.
pub struct RouteInfo {
    pub index: i32,
    pub description: Seq<char>,
    pub available: u32,
    pub direction: RouteDirection,
    pub device: Option<i32>,
    pub profiles: Seq<i32>,
}

/// A profile of a device, as enumerated.
pub struct PwProfileObject {
    pub index: i32,
    pub description: String,
    pub available: u32,
}

impl View for PwProfileObject {
    type V = ProfileInfo;

    open spec fn view(&self) -> ProfileInfo {
        ProfileInfo { index: self.index, description: self.description@, available: self.available }
    }
}

/// A route of a device, as enumerated.
pub struct PwRouteObject {
    pub index: i32,
    pub description: String,
    pub available: u32,
    pub direction: RouteDirection,
    /// The device-relative sub-index the route applies to, when given.
    pub device: Option<i32>,
    /// The profiles under which the route can be used.
    pub profiles: Vec<i32>,
}

impl View for PwRouteObject {
    type V = RouteInfo;

    open spec fn view(&self) -> RouteInfo {
        RouteInfo {
            index: self.index,
            description: self.description@,
            available: self.available,
            direction: self.direction,
            device: self.device,
            profiles: self.profiles@,
        }
    }
}

impl PwRouteObject {
    pub fn get_profiles(&self) -> (r: &Vec<i32>)
        ensures
            r@ == self.profiles@,
    {
        &self.profiles
    }
}

/// A profile object decoded: index, description and availability are required.
pub open spec fn decoded_profile(p: Pod) -> Option<ProfileInfo> {
    match p {
        Pod::Object(o) => if o.schema == Schema::Profile {
            match (int_of(o, "index"@), string_of(o, "description"@), id_of(o, "available"@)) {
                (Some(index), Some(description), Some(available)) => Some(
                    ProfileInfo { index, description, available },
                ),
                _ => None,
            }
        } else {
            None
        },
        _ => None,
    }
}

/// A route object decoded: index, description, availability and a known
/// direction are required; the device sub-index and the profiles are not.
pub open spec fn decoded_route(p: Pod) -> Option<RouteInfo> {
    match p {
        Pod::Object(o) => if o.schema == Schema::Route {
            match (
                int_of(o, "index"@),
                string_of(o, "description"@),
                id_of(o, "available"@),
                id_of(o, "direction"@),
            ) {
                (Some(index), Some(description), Some(available), Some(d)) => match direction_of_id(
                    d,
                ) {
                    Some(direction) => Some(
                        RouteInfo {
                            index,
                            description,
                            available,
                            direction,
                            device: int_of(o, "device"@),
                            profiles: match ints_of(o, "profiles"@) {
                                Some(ps) => ps,
                                None => Seq::empty(),
                            },
                        },
                    ),
                    None => None,
                },
                _ => None,
            }
        } else {
            None
        },
        _ => None,
    }
}

/// The profiles of an enumeration, in the order given; entries that do not
/// decode are left out.
pub open spec fn decoded_profiles(pods: Seq<Pod>) -> Seq<ProfileInfo>
    decreases pods.len(),
{
    if pods.len() == 0 {
        Seq::empty()
    } else {
        let rest = decoded_profiles(pods.drop_last());
        match decoded_profile(pods.last()) {
            Some(p) => rest.push(p),
            None => rest,
        }
    }
}

/// The routes of an enumeration, in the order given; entries that do not
/// decode are left out.
pub open spec fn decoded_routes(pods: Seq<Pod>) -> Seq<RouteInfo>
    decreases pods.len(),
{
    if pods.len() == 0 {
        Seq::empty()
    } else {
        let rest = decoded_routes(pods.drop_last());
        match decoded_route(pods.last()) {
            Some(r) => rest.push(r),
            None => rest,
        }
    }
}

/// A profile or route object that lacks its index, description or
/// availability decodes to nothing.
pub proof fn lemma_missing_required_field(o: PodObject)
    requires
        find_field(o, "index"@) is None || find_field(o, "description"@) is None || find_field(
            o,
            "available"@,
        ) is None,
    ensures
        decoded_profile(Pod::Object(o)) is None,
        decoded_route(Pod::Object(o)) is None,
{
    if find_field(o, "index"@) is None {
        lemma_missing_field_is_absent(o, "index"@);
    } else if find_field(o, "description"@) is None {
        lemma_missing_field_is_absent(o, "description"@);
    } else {
        lemma_missing_field_is_absent(o, "available"@);
    }
}

pub fn decode_profile(p: &Pod) -> (r: Option<PwProfileObject>)
    ensures
        r matches Some(v) ==> decoded_profile(*p) == Some(v@),
        r is None ==> decoded_profile(*p) is None,
{
    match p {
        Pod::Object(o) => {
            if o.schema != Schema::Profile {
                return None;
            }
            match (o.int_field("index"), o.string_field("description"), o.id_field("available")) {
                (Some(index), Some(description), Some(available)) => Some(
                    PwProfileObject { index, description, available },
                ),
                _ => None,
            }
        },
        _ => None,
    }
}

pub fn decode_route(p: &Pod) -> (r: Option<PwRouteObject>)
    ensures
        r matches Some(v) ==> decoded_route(*p) == Some(v@),
        r is None ==> decoded_route(*p) is None,
{
    match p {
        Pod::Object(o) => {
            if o.schema != Schema::Route {
                return None;
            }
            match (
                o.int_field("index"),
                o.string_field("description"),
                o.id_field("available"),
                o.id_field("direction"),
            ) {
                (Some(index), Some(description), Some(available), Some(d)) => match RouteDirection::from_id(d) {
                    Some(direction) => {
                        let profiles = match o.int_array_field("profiles") {
                            Some(ps) => ps,
                            None => Vec::new(),
                        };
                        let device = o.int_field("device");
                        let r = PwRouteObject { index, description, available, direction, device, profiles };
                        assert(r@.profiles == match ints_of(*o, "profiles"@) {
                            Some(ps) => ps,
                            None => Seq::<i32>::empty(),
                        });
                        Some(r)
                    },
                    None => None,
                },
                _ => None,
            }
        },
        _ => None,
    }
}

pub open spec fn profile_views(s: Seq<PwProfileObject>) -> Seq<ProfileInfo> {
    s.map_values(|p: PwProfileObject| p@)
}

pub open spec fn route_views(s: Seq<PwRouteObject>) -> Seq<RouteInfo> {
    s.map_values(|r: PwRouteObject| r@)
}

/// Decodes every profile of an enumeration.
pub fn decode_profiles(pods: &Vec<Pod>) -> (r: Vec<PwProfileObject>)
    ensures
        profile_views(r@) == decoded_profiles(pods@),
{
    let mut out: Vec<PwProfileObject> = Vec::new();
    let mut i: usize = 0;
    while i < pods.len()
        invariant
            i <= pods@.len(),
            profile_views(out@) == decoded_profiles(pods@.subrange(0, i as int)),
        decreases pods@.len() - i,
    {
        let ghost before = out@;
        assert(pods@.subrange(0, i + 1).drop_last() =~= pods@.subrange(0, i as int));
        assert(pods@.subrange(0, i + 1).last() == pods@[i as int]);
        if let Some(p) = decode_profile(&pods[i]) {
            out.push(p);
            assert(profile_views(out@) =~= profile_views(before).push(out@.last()@));
        }
        i = i + 1;
    }
    assert(pods@.subrange(0, pods@.len() as int) =~= pods@);
    out
}

/// Decodes every route of an enumeration.
pub fn decode_routes(pods: &Vec<Pod>) -> (r: Vec<PwRouteObject>)
    ensures
        route_views(r@) == decoded_routes(pods@),
{
    let mut out: Vec<PwRouteObject> = Vec::new();
    let mut i: usize = 0;
    while i < pods.len()
        invariant
            i <= pods@.len(),
            route_views(out@) == decoded_routes(pods@.subrange(0, i as int)),
        decreases pods@.len() - i,
    {
        let ghost before = out@;
        assert(pods@.subrange(0, i + 1).drop_last() =~= pods@.subrange(0, i as int));
        assert(pods@.subrange(0, i + 1).last() == pods@[i as int]);
        if let Some(r) = decode_route(&pods[i]) {
            out.push(r);
            assert(route_views(out@) =~= route_views(before).push(out@.last()@));
        }
        i = i + 1;
    }
    assert(pods@.subrange(0, pods@.len() as int) =~= pods@);
    out
}

/// The positions in `routes`, among its first `n`, of the routes of `direction`.
pub open spec fn view_positions(routes: Seq<RouteInfo>, direction: RouteDirection, n: int) -> Seq<usize>
    decreases n,
{
    if n <= 0 {
        Seq::empty()
    } else {
        let prev = view_positions(routes, direction, n - 1);
        if routes[n - 1].direction == direction {
            prev.push((n - 1) as usize)
        } else {
            prev
        }
    }
}

/// The direction-filtered view of `routes`: positions into the full list.
pub open spec fn route_view(routes: Seq<RouteInfo>, direction: RouteDirection) -> Seq<usize> {
    view_positions(routes, direction, routes.len() as int)
}

/// The first position at or after `j` in `view` whose route has raw index `index`.
pub open spec fn view_position_from(
    routes: Seq<RouteInfo>,
    view: Seq<usize>,
    index: i32,
    j: int,
) -> Option<int>
    decreases view.len() - j,
{
    if 0 <= j < view.len() {
        if routes[view[j] as int].index == index {
            Some(j)
        } else {
            view_position_from(routes, view, index, j + 1)
        }
    } else {
        None
    }
}

/// The position in the view of `direction` of the route with raw index `index`.
pub open spec fn view_position(routes: Seq<RouteInfo>, direction: RouteDirection, index: i32) -> Option<int> {
    view_position_from(routes, route_view(routes, direction), index, 0)
}

/// Every position of a filtered view points into the list.
pub proof fn lemma_view_positions_bounded(routes: Seq<RouteInfo>, direction: RouteDirection, n: int)
    requires
        0 <= n <= routes.len(),
        routes.len() <= usize::MAX,
    ensures
        view_positions(routes, direction, n).len() <= n,
        forall|k: int|
            0 <= k < view_positions(routes, direction, n).len() ==> #[trigger] view_positions(
                routes,
                direction,
                n,
            )[k] < n,
    decreases n,
{
    if n > 0 {
        lemma_view_positions_bounded(routes, direction, n - 1);
    }
}

/// The active position in the view of `direction` after a filtered "Route"
/// point query answered `current`: the position of the route it names, or
/// `previous` when it names none or one that the view does not hold.
pub open spec fn next_route_position(
    routes: Seq<RouteInfo>,
    direction: RouteDirection,
    current: Seq<Pod>,
    previous: usize,
) -> usize {
    match queried_index(current, Schema::Route) {
        Some(ri) => match view_position(routes, direction, ri) {
            Some(j) => j as usize,
            None => previous,
        },
        None => previous,
    }
}

/// The filter of a "Route" point query for the active route of `direction`.
pub open spec fn is_route_filter(p: Pod, direction: RouteDirection) -> bool {
    p matches Pod::Object(o) && {
        &&& o.schema == Schema::Route
        &&& o.properties@.len() == 1
        &&& o.properties@[0].key@ == "direction"@
        &&& o.properties@[0].value matches Pod::Id(d) && direction_of_id(d) == Some(direction)
    }
}

/// The filter object for the point query of the active route of `direction`.
pub fn route_filter(direction: RouteDirection) -> (r: Pod)
    ensures
        is_route_filter(r, direction),
{
    let mut o = PodObject::new(Schema::Route);
    o.add("direction", Pod::Id(direction.id()));
    Pod::Object(o)
}

/// A notification about a device's lists.
#[derive(Clone, Copy, Debug, PartialEq, Eq, Structural)]
pub enum DeviceEvent {
    PreUpdateProfile,
    /// The whole profile list was replaced: `removed` entries out, `inserted` in.
    ProfilesReplaced { removed: usize, inserted: usize },
    PostUpdateProfile,
    PreUpdateRoute,
    /// The whole route list was replaced: `removed` entries out, `inserted` in.
    RoutesReplaced { removed: usize, inserted: usize },
    PostUpdateRoute,
}

/// What a device's parameter-change notification asks to refresh.
#[derive(Clone, Copy, Debug, PartialEq, Eq, Structural)]
pub enum DeviceRefresh {
    /// Enumerate the profiles, then query the active one.
    Profiles,
    /// Query the active profile.
    ActiveProfile,
    /// Enumerate the routes, then query the active route of each direction.
    Routes,
    /// Query the active route of each direction.
    ActiveRoutes,
}

/// A device of the graph and the local state kept for it.
pub struct PwDeviceObject {
    pub boundid: u32,
    pub name: Option<String>,
    pub icon_name: String,
    /// The index of the active profile; none when the graph names none, or
    /// names one that the profile list does not hold.
    pub profile_index: Option<i32>,
    /// The active input route, as a position in the input view.
    pub route_index_input: usize,
    /// The active output route, as a position in the output view.
    pub route_index_output: usize,
    pub profiles: Vec<PwProfileObject>,
    pub routes: Vec<PwRouteObject>,
    /// Notifications not yet handed out.
    pub events: Vec<DeviceEvent>,
    /// Parameter writes not yet handed out.
    pub outbox: Vec<ParamWrite>,
}

/// A "Profile" write selecting the profile `index`.
pub open spec fn is_profile_request(w: ParamWrite, index: i32) -> bool {
    &&& w.kind == ParamKind::Profile
    &&& w.pod matches Pod::Object(o) && is_index_object(o, Schema::Profile, index)
}

/// A "Route" write selecting route `index` for the device sub-index `device`.
pub open spec fn is_route_request(w: ParamWrite, index: i32, device: i32) -> bool {
    &&& w.kind == ParamKind::Route
    &&& w.pod matches Pod::Object(o) && {
        &&& o.schema == Schema::Route
        &&& o.properties@.len() == 2
        &&& o.properties@[0].key@ == "index"@
        &&& o.properties@[0].value == Pod::Int(index)
        &&& o.properties@[1].key@ == "device"@
        &&& o.properties@[1].value == Pod::Int(device)
    }
}

/// The refresh a parameter-change notification of a device calls for.
pub open spec fn device_refresh_for(what: ParamKind) -> Option<DeviceRefresh> {
    match what {
        ParamKind::EnumProfile => Some(DeviceRefresh::Profiles),
        ParamKind::Profile => Some(DeviceRefresh::ActiveProfile),
        ParamKind::EnumRoute => Some(DeviceRefresh::Routes),
        ParamKind::Route => Some(DeviceRefresh::ActiveRoutes),
        _ => None,
    }
}

/// A profile with index `i` is among `profiles`.
pub open spec fn profile_listed(profiles: Seq<PwProfileObject>, i: i32) -> bool {
    exists|k: int| 0 <= k < profiles.len() && #[trigger] profiles[k].index == i
}

/// The active profile after a "Profile" point query answered `current`:
/// the profile it names, unless `profiles` is not empty and lacks it.
pub open spec fn active_profile(profiles: Seq<PwProfileObject>, current: Seq<Pod>) -> Option<i32> {
    match queried_index(current, Schema::Profile) {
        Some(i) => if profiles.len() == 0 || profile_listed(profiles, i) {
            Some(i)
        } else {
            None
        },
        None => None,
    }
}

impl PwDeviceObject {
    /// The active profile, when there is one and the list is not empty, is listed.
    pub open spec fn active_profile_listed(&self) -> bool {
        self.profile_index matches Some(i) ==> self.profiles@.len() == 0 || profile_listed(
            self.profiles@,
            i,
        )
    }

    pub open spec fn route_infos(&self) -> Seq<RouteInfo> {
        route_views(self.routes@)
    }

    pub open spec fn route_index_for(&self, direction: RouteDirection) -> usize {
        match direction {
            RouteDirection::Input => self.route_index_input,
            RouteDirection::Output => self.route_index_output,
        }
    }

    /// A device named by its description, with no profiles or routes yet.
    pub fn new(boundid: u32, description: String, icon_name: Option<String>) -> (r: PwDeviceObject)
        ensures
            r.boundid == boundid,
            r.name matches Some(n) && n@ == description@,
            r.icon_name@ == (match icon_name {
                Some(i) => i@,
                None => "soundcard-symbolic"@,
            }),
            r.profile_index is None,
            r.route_index_input == 0,
            r.route_index_output == 0,
            r.profiles@.len() == 0,
            r.routes@.len() == 0,
            r.events@.len() == 0,
            r.outbox@.len() == 0,
    {
        let mut d = PwDeviceObject {
            boundid,
            name: None,
            icon_name: String::new(),
            profile_index: None,
            route_index_input: 0,
            route_index_output: 0,
            profiles: Vec::new(),
            routes: Vec::new(),
            events: Vec::new(),
            outbox: Vec::new(),
        };
        d.label_set_name(description);
        d.update_icon_name(icon_name);
        d
    }

    /// Takes the name from the device's description.
    pub fn label_set_name(&mut self, description: String)
        ensures
            final(self).name matches Some(n) && n@ == description@,
            final(self).icon_name == old(self).icon_name,
            final(self).boundid == old(self).boundid,
            final(self).profile_index == old(self).profile_index,
            final(self).route_index_input == old(self).route_index_input,
            final(self).route_index_output == old(self).route_index_output,
            final(self).profiles == old(self).profiles,
            final(self).routes == old(self).routes,
            final(self).events == old(self).events,
            final(self).outbox == old(self).outbox,
    {
        self.name = Some(description);
    }

    /// Takes the icon name given, or the generic sound-card icon.
    pub fn update_icon_name(&mut self, icon_name: Option<String>)
        ensures
            final(self).icon_name@ == (match icon_name {
                Some(i) => i@,
                None => "soundcard-symbolic"@,
            }),
            final(self).name == old(self).name,
            final(self).boundid == old(self).boundid,
            final(self).profile_index == old(self).profile_index,
            final(self).route_index_input == old(self).route_index_input,
            final(self).route_index_output == old(self).route_index_output,
            final(self).profiles == old(self).profiles,
            final(self).routes == old(self).routes,
            final(self).events == old(self).events,
            final(self).outbox == old(self).outbox,
    {
        self.icon_name = match icon_name {
            Some(i) => i,
            None => "soundcard-symbolic".to_owned(),
        };
    }

    /// What a parameter-change notification of the device calls for.
    pub fn refresh_for(what: ParamKind) -> (r: Option<DeviceRefresh>)
        ensures
            r == device_refresh_for(what),
    {
        match what {
            ParamKind::EnumProfile => Some(DeviceRefresh::Profiles),
            ParamKind::Profile => Some(DeviceRefresh::ActiveProfile),
            ParamKind::EnumRoute => Some(DeviceRefresh::Routes),
            ParamKind::Route => Some(DeviceRefresh::ActiveRoutes),
            _ => None,
        }
    }

    /// The active profile named by the answer of a "Profile" point query.
    pub fn get_current_profile_index(current: &Vec<Pod>) -> (r: Option<i32>)
        ensures
            r == queried_index(current@, Schema::Profile),
    {
        query_index(current, Schema::Profile)
    }

    /// Whether a profile with index `i` is listed.
    pub fn has_profile(&self, i: i32) -> (r: bool)
        ensures
            r == profile_listed(self.profiles@, i),
    {
        let mut k: usize = 0;
        while k < self.profiles.len()
            invariant
                k <= self.profiles@.len(),
                forall|j: int| 0 <= j < k ==> #[trigger] self.profiles@[j].index != i,
            decreases self.profiles@.len() - k,
        {
            if self.profiles[k].index == i {
                return true;
            }
            k = k + 1;
        }
        false
    }

    /// Takes the active profile from a "Profile" point query: the profile it
    /// names, unless the list is not empty and does not hold it; none when
    /// it names none.
    pub fn update_profile_index(&mut self, current: &Vec<Pod>)
        ensures
            final(self).profile_index == active_profile(old(self).profiles@, current@),
            final(self).active_profile_listed(),
            final(self).name == old(self).name,
            final(self).icon_name == old(self).icon_name,
            final(self).boundid == old(self).boundid,
            final(self).route_index_input == old(self).route_index_input,
            final(self).route_index_output == old(self).route_index_output,
            final(self).profiles == old(self).profiles,
            final(self).routes == old(self).routes,
            final(self).events == old(self).events,
            final(self).outbox == old(self).outbox,
    {
        self.profile_index = match Self::get_current_profile_index(current) {
            Some(i) => if self.profiles.len() == 0 || self.has_profile(i) {
                Some(i)
            } else {
                None
            },
            None => None,
        };
    }

    /// Applies the outcome of a profile enumeration. `None` stands for a
    /// failed request: the device is left as it was. Otherwise the whole
    /// list is replaced, in the order enumerated, inside a pre-/post-update
    /// bracket, and the active profile is taken from `current`.
    pub fn update_profiles(&mut self, enumerated: Option<&Vec<Pod>>, current: &Vec<Pod>)
        ensures
            enumerated is None ==> *final(self) == *old(self),
            enumerated matches Some(pods) ==> {
                &&& profile_views(final(self).profiles@) == decoded_profiles(pods@)
                &&& final(self).events@ == old(self).events@.push(DeviceEvent::PreUpdateProfile).push(
                    DeviceEvent::ProfilesReplaced {
                        removed: old(self).profiles@.len() as usize,
                        inserted: final(self).profiles@.len() as usize,
                    },
                ).push(DeviceEvent::PostUpdateProfile)
                &&& final(self).profile_index == active_profile(final(self).profiles@, current@)
                &&& final(self).active_profile_listed()
                &&& final(self).name == old(self).name
                &&& final(self).icon_name == old(self).icon_name
                &&& final(self).boundid == old(self).boundid
                &&& final(self).route_index_input == old(self).route_index_input
                &&& final(self).route_index_output == old(self).route_index_output
                &&& final(self).routes == old(self).routes
                &&& final(self).outbox == old(self).outbox
            },
    {
        if let Some(pods) = enumerated {
            let removed = self.profiles.len();
            self.events.push(DeviceEvent::PreUpdateProfile);
            self.profiles = decode_profiles(pods);
            let inserted = self.profiles.len();
            self.events.push(DeviceEvent::ProfilesReplaced { removed, inserted });
            self.update_profile_index(current);
            self.events.push(DeviceEvent::PostUpdateProfile);
        }
    }

    /// Queues the write that selects profile `index`. The active profile is
    /// not changed here: it follows from the change notification that comes back.
    pub fn set_profile(&mut self, index: i32)
        ensures
            final(self).outbox@.len() == old(self).outbox@.len() + 1,
            final(self).outbox@.drop_last() == old(self).outbox@,
            is_profile_request(final(self).outbox@.last(), index),
            final(self).name == old(self).name,
            final(self).icon_name == old(self).icon_name,
            final(self).boundid == old(self).boundid,
            final(self).profile_index == old(self).profile_index,
            final(self).route_index_input == old(self).route_index_input,
            final(self).route_index_output == old(self).route_index_output,
            final(self).profiles == old(self).profiles,
            final(self).routes == old(self).routes,
            final(self).events == old(self).events,
    {
        let o = index_object(Schema::Profile, index);
        self.outbox.push(ParamWrite { kind: ParamKind::Profile, pod: Pod::Object(o) });
        assert(self.outbox@.drop_last() =~= old(self).outbox@);
    }

    /// Queues the write that selects route `index` for the device sub-index
    /// `device_index`.
    pub fn set_route(&mut self, index: i32, device_index: i32)
        ensures
            final(self).outbox@.len() == old(self).outbox@.len() + 1,
            final(self).outbox@.drop_last() == old(self).outbox@,
            is_route_request(final(self).outbox@.last(), index, device_index),
            final(self).name == old(self).name,
            final(self).icon_name == old(self).icon_name,
            final(self).boundid == old(self).boundid,
            final(self).profile_index == old(self).profile_index,
            final(self).route_index_input == old(self).route_index_input,
            final(self).route_index_output == old(self).route_index_output,
            final(self).profiles == old(self).profiles,
            final(self).routes == old(self).routes,
            final(self).events == old(self).events,
    {
        let mut o = PodObject::new(Schema::Route);
        o.add("index", Pod::Int(index));
        o.add("device", Pod::Int(device_index));
        self.outbox.push(ParamWrite { kind: ParamKind::Route, pod: Pod::Object(o) });
        assert(self.outbox@.drop_last() =~= old(self).outbox@);
    }

    /// Takes the active route of `direction` from the answer of a "Route"
    /// point query filtered by that direction, mapped to a position in
    /// the direction's view. A route that the view does not hold leaves the
    /// position as it was.
    pub fn update_current_route_index_for_direction_sync(
        &mut self,
        direction: RouteDirection,
        current: &Vec<Pod>,
    )
        ensures
            final(self).route_index_for(direction) == next_route_position(
                old(self).route_infos(),
                direction,
                current@,
                old(self).route_index_for(direction),
            ),
            direction == RouteDirection::Input ==> final(self).route_index_output
                == old(self).route_index_output,
            direction == RouteDirection::Output ==> final(self).route_index_input
                == old(self).route_index_input,
            final(self).name == old(self).name,
            final(self).icon_name == old(self).icon_name,
            final(self).boundid == old(self).boundid,
            final(self).profile_index == old(self).profile_index,
            final(self).profiles == old(self).profiles,
            final(self).routes == old(self).routes,
            final(self).events == old(self).events,
            final(self).outbox == old(self).outbox,
    {
        if let Some(ri) = query_index(current, Schema::Route) {
            if let Some(j) = self.get_model_index_from_route_index(direction, ri) {
                match direction {
                    RouteDirection::Input => self.route_index_input = j,
                    RouteDirection::Output => self.route_index_output = j,
                }
            }
        }
    }

    /// Takes the active route of both directions from their point queries.
    pub fn update_current_route_index(&mut self, input_current: &Vec<Pod>, output_current: &Vec<Pod>)
        ensures
            final(self).route_index_input == next_route_position(
                old(self).route_infos(),
                RouteDirection::Input,
                input_current@,
                old(self).route_index_input,
            ),
            final(self).route_index_output == next_route_position(
                old(self).route_infos(),
                RouteDirection::Output,
                output_current@,
                old(self).route_index_output,
            ),
            final(self).name == old(self).name,
            final(self).icon_name == old(self).icon_name,
            final(self).boundid == old(self).boundid,
            final(self).profile_index == old(self).profile_index,
            final(self).profiles == old(self).profiles,
            final(self).routes == old(self).routes,
            final(self).events == old(self).events,
            final(self).outbox == old(self).outbox,
    {
        self.update_current_route_index_for_direction_sync(RouteDirection::Input, input_current);
        self.update_current_route_index_for_direction_sync(RouteDirection::Output, output_current);
    }

    /// Applies the outcome of a route enumeration. `None` stands for a
    /// failed request: the device is left as it was. Otherwise the one list
    /// behind both directional views is replaced, in the order enumerated,
    /// inside a pre-/post-update bracket, and the active route of each
    /// direction is taken from its point query.
    pub fn update_routes(
        &mut self,
        enumerated: Option<&Vec<Pod>>,
        input_current: &Vec<Pod>,
        output_current: &Vec<Pod>,
    )
        ensures
            enumerated is None ==> *final(self) == *old(self),
            enumerated matches Some(pods) ==> {
                &&& final(self).route_infos() == decoded_routes(pods@)
                &&& final(self).events@ == old(self).events@.push(DeviceEvent::PreUpdateRoute).push(
                    DeviceEvent::RoutesReplaced {
                        removed: old(self).routes@.len() as usize,
                        inserted: final(self).routes@.len() as usize,
                    },
                ).push(DeviceEvent::PostUpdateRoute)
                &&& final(self).route_index_input == next_route_position(
                    final(self).route_infos(),
                    RouteDirection::Input,
                    input_current@,
                    old(self).route_index_input,
                )
                &&& final(self).route_index_output == next_route_position(
                    final(self).route_infos(),
                    RouteDirection::Output,
                    output_current@,
                    old(self).route_index_output,
                )
                &&& final(self).name == old(self).name
                &&& final(self).icon_name == old(self).icon_name
                &&& final(self).boundid == old(self).boundid
                &&& final(self).profile_index == old(self).profile_index
                &&& final(self).profiles == old(self).profiles
                &&& final(self).outbox == old(self).outbox
            },
    {
        if let Some(pods) = enumerated {
            let removed = self.routes.len();
            self.events.push(DeviceEvent::PreUpdateRoute);
            self.routes = decode_routes(pods);
            let inserted = self.routes.len();
            self.events.push(DeviceEvent::RoutesReplaced { removed, inserted });
            self.update_current_route_index(input_current, output_current);
            self.events.push(DeviceEvent::PostUpdateRoute);
        }
    }

    /// The number of profiles.
    pub fn n_items(&self) -> (r: usize)
        ensures
            r == self.profiles@.len(),
    {
        self.profiles.len()
    }

    /// The profile at `position`, if there is one.
    pub fn item(&self, position: usize) -> (r: Option<&PwProfileObject>)
        ensures
            r matches Some(p) ==> position < self.profiles@.len() && *p == self.profiles@[position as int],
            r is None ==> position >= self.profiles@.len(),
    {
        if position < self.profiles.len() {
            Some(&self.profiles[position])
        } else {
            None
        }
    }

    /// Hands out the queued notifications, oldest first.
    pub fn take_events(&mut self) -> (r: Vec<DeviceEvent>)
        ensures
            r@ == old(self).events@,
            final(self).events@.len() == 0,
            final(self).name == old(self).name,
            final(self).icon_name == old(self).icon_name,
            final(self).boundid == old(self).boundid,
            final(self).profile_index == old(self).profile_index,
            final(self).route_index_input == old(self).route_index_input,
            final(self).route_index_output == old(self).route_index_output,
            final(self).profiles == old(self).profiles,
            final(self).routes == old(self).routes,
            final(self).outbox == old(self).outbox,
    {
        let mut out: Vec<DeviceEvent> = Vec::new();
        std::mem::swap(&mut out, &mut self.events);
        out
    }

    /// Hands out the queued parameter writes, oldest first.
    pub fn take_outbound(&mut self) -> (r: Vec<ParamWrite>)
        ensures
            r@ == old(self).outbox@,
            final(self).outbox@.len() == 0,
            final(self).name == old(self).name,
            final(self).icon_name == old(self).icon_name,
            final(self).boundid == old(self).boundid,
            final(self).profile_index == old(self).profile_index,
            final(self).route_index_input == old(self).route_index_input,
            final(self).route_index_output == old(self).route_index_output,
            final(self).profiles == old(self).profiles,
            final(self).routes == old(self).routes,
            final(self).events == old(self).events,
    {
        let mut out: Vec<ParamWrite> = Vec::new();
        std::mem::swap(&mut out, &mut self.outbox);
        out
    }

    /// The view of the routes of `direction`: their positions in the full list.
    pub fn get_route_model_for_direction(&self, direction: RouteDirection) -> (r: Vec<usize>)
        ensures
            r@ == route_view(self.route_infos(), direction),
    {
        let ghost infos = self.route_infos();
        let mut out: Vec<usize> = Vec::new();
        let mut i: usize = 0;
        while i < self.routes.len()
            invariant
                infos == route_views(self.routes@),
                i <= self.routes@.len(),
                out@ == view_positions(infos, direction, i as int),
            decreases self.routes@.len() - i,
        {
            if self.routes[i].direction == direction {
                out.push(i);
            }
            i = i + 1;
        }
        out
    }

    /// The position, in the view of `direction`, of the route whose raw
    /// index is `routeindex`; the first match wins.
    pub fn get_model_index_from_route_index(&self, direction: RouteDirection, routeindex: i32) -> (r:
        Option<usize>)
        ensures
            r matches Some(j) ==> view_position(self.route_infos(), direction, routeindex) == Some(
                j as int,
            ),
            r is None ==> view_position(self.route_infos(), direction, routeindex) is None,
    {
        let ghost infos = self.route_infos();
        let view = self.get_route_model_for_direction(direction);
        let n = self.routes.len();
        assert(infos.len() == n);
        proof {
            lemma_view_positions_bounded(infos, direction, infos.len() as int);
        }
        let mut j: usize = 0;
        while j < view.len()
            invariant
                infos == route_views(self.routes@),
                view@ == route_view(infos, direction),
                forall|k: int| 0 <= k < view@.len() ==> #[trigger] view@[k] < infos.len(),
                j <= view@.len(),
                view_position_from(infos, view@, routeindex, j as int) == view_position(
                    infos,
                    direction,
                    routeindex,
                ),
            decreases view@.len() - j,
        {
            let pos = view[j];
            if self.routes[pos].index == routeindex {
                return Some(j);
            }
            j = j + 1;
        }
        None
    }
}

} // verus!
