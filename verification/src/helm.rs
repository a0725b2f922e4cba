use vstd::prelude::*;

use crate::cache::{
    cache_after_get, cache_after_set, cache_get, AppCache, RENDERED_PNG_TTL_MS, SKIN_URL_TTL_MS,
    USERNAME_TTL_MS,
};
use crate::codec::resize_fits;
use crate::error::AppError;
use crate::render::{render_helm_png, render_helm_png_spec, same_bytes_result};
use crate::routes::HelmRequest;
use crate::text::lower_seq;
use crate::types::{pixel_safe_size, PlayerInput, MAX_SIZE};

verus! {

/// The three caches of the service, by their contents.
#[verifier::ext_equal]
pub struct CacheMaps {
    pub usernames: Map<Seq<char>, (Seq<char>, u64)>,
    pub skin_urls: Map<Seq<char>, (Seq<char>, u64)>,
    pub rendered: Map<(Seq<char>, u32), (Seq<u8>, u64)>,
}

pub open spec fn maps_of(c: AppCache) -> CacheMaps {
    CacheMaps {
        usernames: c.usernames_map(),
        skin_urls: c.skin_urls_map(),
        rendered: c.rendered_map(),
    }
}

pub open spec fn with_usernames(c: CacheMaps, m: Map<Seq<char>, (Seq<char>, u64)>) -> CacheMaps {
    CacheMaps { usernames: m, skin_urls: c.skin_urls, rendered: c.rendered }
}

pub open spec fn with_skin_urls(c: CacheMaps, m: Map<Seq<char>, (Seq<char>, u64)>) -> CacheMaps {
    CacheMaps { usernames: c.usernames, skin_urls: m, rendered: c.rendered }
}

pub open spec fn with_rendered(c: CacheMaps, m: Map<(Seq<char>, u32), (Seq<u8>, u64)>) -> CacheMaps {
    CacheMaps { usernames: c.usernames, skin_urls: c.skin_urls, rendered: m }
}

/// What is known of a player's UUID before Mojang is asked: the UUID, or the
/// username to resolve.
#[derive(Debug, Clone, PartialEq, Eq)]
pub enum UuidLookup {
    Known(String),
    Fetch(String),
}

/// A UUID is known at once; a username is looked up in the username cache
/// (by its lowercase form) and fetched when no fresh entry holds it.
pub fn lookup_player_uuid(player: PlayerInput, cache: &mut AppCache, now: u64) -> (r: UuidLookup)
    ensures
        match player {
            PlayerInput::Uuid(u) => r matches UuidLookup::Known(k) && k@ == u@ && maps_of(
                *final(cache),
            ) == maps_of(*old(cache)),
            PlayerInput::Username(n) => {
                &&& maps_of(*final(cache)) == with_usernames(
                    maps_of(*old(cache)),
                    cache_after_get(old(cache).usernames_map(), lower_seq(n@), now),
                )
                &&& match cache_get(old(cache).usernames_map(), lower_seq(n@), now) {
                    Some(v) => r matches UuidLookup::Known(k) && k@ == v,
                    None => r matches UuidLookup::Fetch(f) && f@ == n@,
                }
            },
        },
{
    match player {
        PlayerInput::Uuid(uuid) => UuidLookup::Known(uuid),
        PlayerInput::Username(username) => match cache.get_username_uuid(username.as_str(), now) {
            Some(uuid) => UuidLookup::Known(uuid),
            None => UuidLookup::Fetch(username),
        },
    }
}

/// Stores the UUID that Mojang gave for a username (for 6 hours, under its
/// lowercase form) and passes the answer on; a failed lookup stores nothing.
pub fn record_player_uuid(
    username: &str,
    fetched: Result<String, AppError>,
    cache: &mut AppCache,
    now: u64,
) -> (r: Result<String, AppError>)
    requires
        now + USERNAME_TTL_MS <= u64::MAX,
    ensures
        match fetched {
            Ok(u) => r matches Ok(x) && x@ == u@ && maps_of(*final(cache)) == with_usernames(
                maps_of(*old(cache)),
                cache_after_set(old(cache).usernames_map(), lower_seq(username@), u@, now, USERNAME_TTL_MS),
            ),
            Err(e) => r == Err::<String, AppError>(e) && maps_of(*final(cache)) == maps_of(
                *old(cache),
            ),
        },
{
    match fetched {
        Ok(uuid) => {
            cache.set_username_uuid(username, uuid.clone(), now);
            Ok(uuid)
        },
        Err(e) => Err(e),
    }
}

/// Where a `/helm/{player}` request stands.
#[derive(Debug, Clone, Copy, PartialEq, Eq, Structural)]
pub enum HelmStage {
    AwaitUuid,
    AwaitSkinUrl,
    AwaitSkin,
    Finished,
}

/// What the server does next for a `/helm/{player}` request.
#[derive(Debug, Clone, PartialEq, Eq)]
pub enum HelmAction {
    /// Resolve this username through Mojang.
    FetchUuid(String),
    /// Fetch the skin URL of this UUID.
    FetchSkinUrl(String),
    /// Download the skin at this URL.
    DownloadSkin(String),
    /// Answer with this PNG.
    Respond(Vec<u8>),
    /// Answer with this error.
    Fail(AppError),
}

pub enum StepView {
    FetchUuid(Seq<char>),
    FetchSkinUrl(Seq<char>),
    DownloadSkin(Seq<char>),
    Respond(Seq<u8>),
    Fail(AppError),
}

impl View for HelmAction {
    type V = StepView;

    open spec fn view(&self) -> StepView {
        match self {
            HelmAction::FetchUuid(s) => StepView::FetchUuid(s@),
            HelmAction::FetchSkinUrl(s) => StepView::FetchSkinUrl(s@),
            HelmAction::DownloadSkin(s) => StepView::DownloadSkin(s@),
            HelmAction::Respond(b) => StepView::Respond(b@),
            HelmAction::Fail(e) => StepView::Fail(*e),
        }
    }
}

/// What came back from the outside work of the last action.
#[derive(Debug)]
pub enum HelmEvent {
    UuidFetched(Result<String, AppError>),
    SkinUrlFetched(Result<String, AppError>),
    SkinDownloaded(Result<Vec<u8>, AppError>),
}

pub enum EventView {
    UuidFetched(Result<Seq<char>, AppError>),
    SkinUrlFetched(Result<Seq<char>, AppError>),
    SkinDownloaded(Result<Seq<u8>, AppError>),
}

impl View for HelmEvent {
    type V = EventView;

    open spec fn view(&self) -> EventView {
        match self {
            HelmEvent::UuidFetched(r) => EventView::UuidFetched(
                match r {
                    Ok(s) => Ok(s@),
                    Err(e) => Err(*e),
                },
            ),
            HelmEvent::SkinUrlFetched(r) => EventView::SkinUrlFetched(
                match r {
                    Ok(s) => Ok(s@),
                    Err(e) => Err(*e),
                },
            ),
            HelmEvent::SkinDownloaded(r) => EventView::SkinDownloaded(
                match r {
                    Ok(b) => Ok(b@),
                    Err(e) => Err(*e),
                },
            ),
        }
    }
}

/// A `/helm/{player}` request in progress.
pub struct HelmFlow {
    stage: HelmStage,
    size: u32,
    username: String,
    uuid: String,
    skin_url: String,
}

#[verifier::ext_equal]
pub struct FlowView {
    pub stage: HelmStage,
    pub size: u32,
    pub username: Seq<char>,
    pub uuid: Seq<char>,
    pub skin_url: Seq<char>,
}

impl View for HelmFlow {
    type V = FlowView;

    closed spec fn view(&self) -> FlowView {
        FlowView {
            stage: self.stage,
            size: self.size,
            username: self.username@,
            uuid: self.uuid@,
            skin_url: self.skin_url@,
        }
    }
}

impl HelmFlow {
    #[verifier::type_invariant]
    spec fn size_in_range(self) -> bool {
        self.size <= MAX_SIZE
    }
}

pub open spec fn with_stage(f: FlowView, stage: HelmStage) -> FlowView {
    FlowView { stage, size: f.size, username: f.username, uuid: f.uuid, skin_url: f.skin_url }
}

pub open spec fn with_username(f: FlowView, username: Seq<char>) -> FlowView {
    FlowView { stage: f.stage, size: f.size, username, uuid: f.uuid, skin_url: f.skin_url }
}

pub open spec fn with_uuid(f: FlowView, uuid: Seq<char>) -> FlowView {
    FlowView { stage: f.stage, size: f.size, username: f.username, uuid, skin_url: f.skin_url }
}

pub open spec fn with_skin_url(f: FlowView, skin_url: Seq<char>) -> FlowView {
    FlowView { stage: f.stage, size: f.size, username: f.username, uuid: f.uuid, skin_url }
}

/// A step's action, the request's state after it and the caches after it.
#[verifier::ext_equal]
pub struct Outcome {
    pub step: StepView,
    pub flow: FlowView,
    pub cache: CacheMaps,
}

/// The stage that waits for an action's result; answers finish the request.
pub open spec fn stage_after(step: StepView) -> HelmStage {
    match step {
        StepView::FetchUuid(_) => HelmStage::AwaitUuid,
        StepView::FetchSkinUrl(_) => HelmStage::AwaitSkinUrl,
        StepView::DownloadSkin(_) => HelmStage::AwaitSkin,
        _ => HelmStage::Finished,
    }
}

pub open spec fn finish(step: StepView, f: FlowView, c: CacheMaps) -> Outcome {
    Outcome { step, flow: with_stage(f, stage_after(step)), cache: c }
}

/// With the skin URL known: a fresh cached PNG of this URL and size answers
/// at once, otherwise the skin is downloaded.
pub open spec fn png_lookup(f: FlowView, c: CacheMaps, url: Seq<char>, now: u64) -> Outcome {
    let f1 = with_skin_url(f, url);
    let c1 = with_rendered(c, cache_after_get(c.rendered, (url, f.size), now));
    match cache_get(c.rendered, (url, f.size), now) {
        Some(png) => finish(StepView::Respond(png), f1, c1),
        None => finish(StepView::DownloadSkin(url), f1, c1),
    }
}

/// With the UUID known: a fresh cached skin URL is used, otherwise it is
/// fetched.
pub open spec fn skin_url_lookup(f: FlowView, c: CacheMaps, uuid: Seq<char>, now: u64) -> Outcome {
    let f1 = with_uuid(f, uuid);
    let c1 = with_skin_urls(c, cache_after_get(c.skin_urls, uuid, now));
    match cache_get(c.skin_urls, uuid, now) {
        Some(url) => png_lookup(f1, c1, url, now),
        None => finish(StepView::FetchSkinUrl(uuid), f1, c1),
    }
}

/// The first step of a request: a UUID goes straight to the skin URL; a
/// username is first looked up in the username cache.
pub open spec fn helm_begin_spec(c: CacheMaps, player: PlayerInput, size: u32, now: u64) -> Outcome {
    let f0 = FlowView {
        stage: HelmStage::AwaitUuid,
        size,
        username: Seq::empty(),
        uuid: Seq::empty(),
        skin_url: Seq::empty(),
    };
    match player {
        PlayerInput::Uuid(u) => skin_url_lookup(f0, c, u@, now),
        PlayerInput::Username(n) => {
            let f1 = with_username(f0, n@);
            let c1 = with_usernames(c, cache_after_get(c.usernames, lower_seq(n@), now));
            match cache_get(c.usernames, lower_seq(n@), now) {
                Some(u) => skin_url_lookup(f1, c1, u, now),
                None => finish(StepView::FetchUuid(n@), f1, c1),
            }
        },
    }
}

/// The step after an outside result: a fetched UUID or skin URL is cached and
/// the request goes on; a downloaded skin is rendered, cached and answered;
/// any failure is answered as it is; a result the request does not wait for
/// is an internal error.
pub open spec fn helm_advance_spec(f: FlowView, c: CacheMaps, e: EventView, now: u64) -> Outcome {
    match e {
        EventView::UuidFetched(r) => if f.stage != HelmStage::AwaitUuid {
            finish(StepView::Fail(AppError::Internal), f, c)
        } else {
            match r {
                Ok(u) => skin_url_lookup(
                    f,
                    with_usernames(
                        c,
                        cache_after_set(c.usernames, lower_seq(f.username), u, now, USERNAME_TTL_MS),
                    ),
                    u,
                    now,
                ),
                Err(err) => finish(StepView::Fail(err), f, c),
            }
        },
        EventView::SkinUrlFetched(r) => if f.stage != HelmStage::AwaitSkinUrl {
            finish(StepView::Fail(AppError::Internal), f, c)
        } else {
            match r {
                Ok(url) => png_lookup(
                    f,
                    with_skin_urls(c, cache_after_set(c.skin_urls, f.uuid, url, now, SKIN_URL_TTL_MS)),
                    url,
                    now,
                ),
                Err(err) => finish(StepView::Fail(err), f, c),
            }
        },
        EventView::SkinDownloaded(r) => if f.stage != HelmStage::AwaitSkin {
            finish(StepView::Fail(AppError::Internal), f, c)
        } else {
            match r {
                Ok(bytes) => match render_helm_png_spec(bytes, f.size) {
                    Ok(png) => finish(
                        StepView::Respond(png),
                        f,
                        with_rendered(
                            c,
                            cache_after_set(
                                c.rendered,
                                (f.skin_url, f.size),
                                png,
                                now,
                                RENDERED_PNG_TTL_MS,
                            ),
                        ),
                    ),
                    Err(err) => finish(StepView::Fail(err), f, c),
                },
                Err(err) => finish(StepView::Fail(err), f, c),
            }
        },
    }
}

/// The action, request state and caches after a step are those of `o`.
pub open spec fn outcome_holds(a: HelmAction, flow: HelmFlow, cache: AppCache, o: Outcome) -> bool {
    &&& a@ == o.step
    &&& flow@ == o.flow
    &&& maps_of(cache) == o.cache
}

fn lookup_png(flow: &mut HelmFlow, cache: &mut AppCache, url: String, now: u64) -> (a: HelmAction)
    ensures
        outcome_holds(a, *final(flow), *final(cache), png_lookup(old(flow)@, maps_of(*old(cache)), url@, now)),
{
    proof {
        use_type_invariant(&*flow);
    }
    let cached = cache.get_rendered_png(url.as_str(), flow.size, now);
    let copy = url.clone();
    flow.skin_url = url;
    match cached {
        Some(png) => {
            flow.stage = HelmStage::Finished;
            HelmAction::Respond(png)
        },
        None => {
            flow.stage = HelmStage::AwaitSkin;
            HelmAction::DownloadSkin(copy)
        },
    }
}

fn lookup_skin_url(flow: &mut HelmFlow, cache: &mut AppCache, uuid: String, now: u64) -> (a: HelmAction)
    ensures
        outcome_holds(
            a,
            *final(flow),
            *final(cache),
            skin_url_lookup(old(flow)@, maps_of(*old(cache)), uuid@, now),
        ),
{
    proof {
        use_type_invariant(&*flow);
    }
    let cached = cache.get_skin_url(uuid.as_str(), now);
    let copy = uuid.clone();
    flow.uuid = uuid;
    match cached {
        Some(url) => lookup_png(flow, cache, url, now),
        None => {
            flow.stage = HelmStage::AwaitSkinUrl;
            HelmAction::FetchSkinUrl(copy)
        },
    }
}

proof fn lemma_served_sizes_fit(size: u32)
    requires
        size <= MAX_SIZE,
    ensures
        resize_fits(8, pixel_safe_size(size), pixel_safe_size(size)),
{
    let r = pixel_safe_size(size);
    assert(r <= 512);
    assert(r * r * 4 <= 0x7fff_ffff && 8 * r * 16 <= 0x7fff_ffff) by (nonlinear_arith)
        requires
            0 <= r <= 512,
    ;
}

/// Starts a `/helm/{player}` request from its validated form.
pub fn helm_begin(request: HelmRequest, cache: &mut AppCache, now: u64) -> (r: (HelmFlow, HelmAction))
    requires
        request.size <= MAX_SIZE,
    ensures
        outcome_holds(
            r.1,
            r.0,
            *final(cache),
            helm_begin_spec(maps_of(*old(cache)), request.player, request.size, now),
        ),
{
    let mut flow = HelmFlow {
        stage: HelmStage::AwaitUuid,
        size: request.size,
        username: String::new(),
        uuid: String::new(),
        skin_url: String::new(),
    };
    if let PlayerInput::Username(name) = &request.player {
        flow.username = name.clone();
    }
    let action = match lookup_player_uuid(request.player, cache, now) {
        UuidLookup::Known(uuid) => lookup_skin_url(&mut flow, cache, uuid, now),
        UuidLookup::Fetch(name) => HelmAction::FetchUuid(name),
    };
    (flow, action)
}

/// Takes a request one step further with the result of its last action.
pub fn helm_advance(flow: &mut HelmFlow, cache: &mut AppCache, event: HelmEvent, now: u64) -> (a:
    HelmAction)
    requires
        now + USERNAME_TTL_MS <= u64::MAX,
    ensures
        outcome_holds(a, *final(flow), *final(cache), helm_advance_spec(old(flow)@, maps_of(*old(cache)), event@, now)),
{
    proof {
        use_type_invariant(&*flow);
    }
    match event {
        HelmEvent::UuidFetched(fetched) => {
            if flow.stage != HelmStage::AwaitUuid {
                flow.stage = HelmStage::Finished;
                return HelmAction::Fail(AppError::Internal);
            }
            match record_player_uuid(flow.username.as_str(), fetched, cache, now) {
                Ok(uuid) => lookup_skin_url(flow, cache, uuid, now),
                Err(e) => {
                    flow.stage = HelmStage::Finished;
                    HelmAction::Fail(e)
                },
            }
        },
        HelmEvent::SkinUrlFetched(fetched) => {
            if flow.stage != HelmStage::AwaitSkinUrl {
                flow.stage = HelmStage::Finished;
                return HelmAction::Fail(AppError::Internal);
            }
            match fetched {
                Ok(url) => {
                    cache.set_skin_url(flow.uuid.as_str(), url.clone(), now);
                    lookup_png(flow, cache, url, now)
                },
                Err(e) => {
                    flow.stage = HelmStage::Finished;
                    HelmAction::Fail(e)
                },
            }
        },
        HelmEvent::SkinDownloaded(fetched) => {
            if flow.stage != HelmStage::AwaitSkin {
                flow.stage = HelmStage::Finished;
                return HelmAction::Fail(AppError::Internal);
            }
            flow.stage = HelmStage::Finished;
            match fetched {
                Ok(bytes) => {
                    proof {
                        lemma_served_sizes_fit(flow.size);
                    }
                    match render_helm_png(bytes.as_slice(), flow.size) {
                        Ok(png) => {
                            let stored = png.clone();
                            assert(stored@ == png@);
                            cache.set_rendered_png(flow.skin_url.as_str(), flow.size, stored, now);
                            HelmAction::Respond(png)
                        },
                        Err(e) => HelmAction::Fail(e),
                    }
                },
                Err(e) => HelmAction::Fail(e),
            }
        },
    }
}

} // verus!
