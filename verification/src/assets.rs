//! The assets that are still loading, and what to do with each once it is
//! there.
//!
//! The engine loads assets in the background. Once per tick the game asks
//! it how far each watched asset is; an asset that has arrived is put to use
//! and no longer watched.

use vstd::prelude::*;
use vstd::string::StrSliceExecFns;

use crate::bubble::BubbleType;
use crate::models::BubbleModels;

verus! {

/// How far the engine is with loading an asset.
#[derive(Clone, Copy, Debug, PartialEq, Eq, Structural)]
pub enum LoadState {
    /// Not there yet.
    Loading,
    /// There, with its data.
    Loaded,
    /// Reported as there, but without data.
    Empty,
}

/// A model that is placed in the scene once.
#[derive(Clone, Copy, Debug, PartialEq, Eq, Structural)]
pub enum SceneItem {
    /// The player's body, attached to the player.
    PlayerCharacter,
    /// The plants scattered on the plateau.
    Plants,
    /// The sea floor.
    Background,
    /// The plateau.
    Plateau,
}

/// What an asset is for, by its name.
#[derive(Clone, Copy, Debug, PartialEq, Eq, Structural)]
pub enum AssetRole {
    /// A model to place in the scene.
    Scene(SceneItem),
    /// The model of a bubble kind.
    Model(BubbleType),
    /// A name that the game does not know.
    Unknown,
}

/// What to do about a watched asset in this tick.
#[derive(Clone, Copy, Debug, PartialEq, Eq, Structural)]
pub enum AssetOutcome {
    /// Still loading: nothing to do.
    Waiting,
    /// Loaded without data: worth a warning; the asset stays watched and
    /// what depends on it stays off.
    Missing,
    /// Loaded, but the name is unknown: worth a warning; nothing is placed.
    Unknown,
    /// Loaded: place it in the scene.
    Place(SceneItem),
    /// Loaded: bubbles of this kind can be shown from now on.
    Model(BubbleType),
}

/// What the asset of the given name is for.
pub open spec fn role_of(name: Seq<char>) -> AssetRole {
    if name == "player_character"@ {
        AssetRole::Scene(SceneItem::PlayerCharacter)
    } else if name == "alge"@ {
        AssetRole::Scene(SceneItem::Plants)
    } else if name == "sand"@ {
        AssetRole::Scene(SceneItem::Background)
    } else if name == "plateau"@ {
        AssetRole::Scene(SceneItem::Plateau)
    } else if name == "bubble_rot"@ {
        AssetRole::Model(BubbleType::Blood)
    } else if name == "bubble_dirt"@ {
        AssetRole::Model(BubbleType::Dirt)
    } else if name == "bubble_freeze"@ {
        AssetRole::Model(BubbleType::Freeze)
    } else if name == "bubble_regular"@ {
        AssetRole::Model(BubbleType::Regular)
    } else {
        AssetRole::Unknown
    }
}

/// What to do about the asset of the given name in the given state.
pub open spec fn outcome_of(name: Seq<char>, state: LoadState) -> AssetOutcome {
    match state {
        LoadState::Loading => AssetOutcome::Waiting,
        LoadState::Empty => AssetOutcome::Missing,
        LoadState::Loaded => match role_of(name) {
            AssetRole::Scene(item) => AssetOutcome::Place(item),
            AssetRole::Model(bubble_type) => AssetOutcome::Model(bubble_type),
            AssetRole::Unknown => AssetOutcome::Unknown,
        },
    }
}

impl AssetOutcome {
    /// Whether the asset is done with and no longer watched.
    pub open spec fn is_processed(self) -> bool {
        self != AssetOutcome::Waiting && self != AssetOutcome::Missing
    }

    /// Whether the asset is done with and no longer watched.
    pub fn processed(&self) -> (r: bool)
        ensures
            r == self.is_processed(),
    {
        match self {
            AssetOutcome::Waiting => false,
            AssetOutcome::Missing => false,
            _ => true,
        }
    }
}

/// Whether two texts are the same.
fn same_text(a: &str, b: &str) -> (r: bool)
    ensures
        r == (a@ == b@),
{
    let length = a.unicode_len();
    if length != b.unicode_len() {
        return false;
    }
    let mut i: usize = 0;
    while i < length
        invariant
            i <= length,
            length == a@.len(),
            length == b@.len(),
            forall|j: int| 0 <= j < i ==> a@[j] == b@[j],
        decreases length - i,
    {
        if a.get_char(i) != b.get_char(i) {
            return false;
        }
        i += 1;
    }
    assert(a@ =~= b@);
    true
}

/// What the asset of the given name is for.
pub fn asset_role(name: &str) -> (r: AssetRole)
    ensures
        r == role_of(name@),
{
    if same_text(name, "player_character") {
        AssetRole::Scene(SceneItem::PlayerCharacter)
    } else if same_text(name, "alge") {
        AssetRole::Scene(SceneItem::Plants)
    } else if same_text(name, "sand") {
        AssetRole::Scene(SceneItem::Background)
    } else if same_text(name, "plateau") {
        AssetRole::Scene(SceneItem::Plateau)
    } else if same_text(name, "bubble_rot") {
        AssetRole::Model(BubbleType::Blood)
    } else if same_text(name, "bubble_dirt") {
        AssetRole::Model(BubbleType::Dirt)
    } else if same_text(name, "bubble_freeze") {
        AssetRole::Model(BubbleType::Freeze)
    } else if same_text(name, "bubble_regular") {
        AssetRole::Model(BubbleType::Regular)
    } else {
        AssetRole::Unknown
    }
}

/// What to do about the asset of the given name in the given state.
pub fn asset_outcome(name: &str, state: LoadState) -> (r: AssetOutcome)
    ensures
        r == outcome_of(name@, state),
{
    match state {
        LoadState::Loading => AssetOutcome::Waiting,
        LoadState::Empty => AssetOutcome::Missing,
        LoadState::Loaded => match asset_role(name) {
            AssetRole::Scene(item) => AssetOutcome::Place(item),
            AssetRole::Model(bubble_type) => AssetOutcome::Model(bubble_type),
            AssetRole::Unknown => AssetOutcome::Unknown,
        },
    }
}

/// The state reported for the watched asset at place `i`; an asset without
/// a report counts as still loading.
pub open spec fn state_at(states: Seq<LoadState>, i: int) -> LoadState {
    if 0 <= i < states.len() {
        states[i]
    } else {
        LoadState::Loading
    }
}

/// What to do about each watched asset, given the reported states.
pub open spec fn outcomes(names: Seq<Seq<char>>, states: Seq<LoadState>) -> Seq<AssetOutcome> {
    Seq::new(names.len(), |i: int| outcome_of(names[i], state_at(states, i)))
}

/// Of the first `n` watched names, those that stay watched, in their order.
pub open spec fn still_watched(names: Seq<Seq<char>>, states: Seq<LoadState>, n: nat) -> Seq<
    Seq<char>,
>
    decreases n,
{
    if n == 0 {
        Seq::empty()
    } else {
        let earlier = still_watched(names, states, (n - 1) as nat);
        if outcome_of(names[n - 1], state_at(states, n - 1)).is_processed() {
            earlier
        } else {
            earlier.push(names[n - 1])
        }
    }
}

/// The models after the given outcomes: those there were, and each kind
/// whose model has arrived.
pub open spec fn models_with(models: BubbleModels, arrived: Seq<AssetOutcome>) -> BubbleModels {
    BubbleModels {
        regular: models.regular || arrived.contains(AssetOutcome::Model(BubbleType::Regular)),
        blood: models.blood || arrived.contains(AssetOutcome::Model(BubbleType::Blood)),
        dirt: models.dirt || arrived.contains(AssetOutcome::Model(BubbleType::Dirt)),
        freeze: models.freeze || arrived.contains(AssetOutcome::Model(BubbleType::Freeze)),
    }
}

/// The names of the assets of the game, in the order in which a session
/// starts to watch them.
pub open spec fn game_assets() -> Seq<Seq<char>> {
    seq![
        "player_character"@,
        "alge"@,
        "sand"@,
        "plateau"@,
        "bubble_rot"@,
        "bubble_dirt"@,
        "bubble_freeze"@,
        "bubble_regular"@,
    ]
}

/// No name occurs twice.
pub open spec fn distinct(names: Seq<Seq<char>>) -> bool {
    forall|i: int, j: int| 0 <= i < j < names.len() ==> names[i] != names[j]
}

/// The assets that are still loading, by name, in the order in which they
/// were put under watch. No name is watched twice.
#[derive(Debug)]
pub struct AssetsLoading {
    pending: Vec<String>,
}

impl View for AssetsLoading {
    type V = Seq<Seq<char>>;

    closed spec fn view(&self) -> Seq<Seq<char>> {
        Seq::new(self.pending@.len(), |i: int| self.pending@[i]@)
    }
}

impl AssetsLoading {
    #[verifier::type_invariant]
    spec fn valid(self) -> bool {
        distinct(self@)
    }

    /// Nothing under watch.
    pub fn new() -> (r: AssetsLoading)
        ensures
            r@ == Seq::<Seq<char>>::empty(),
    {
        let r = AssetsLoading { pending: Vec::new() };
        assert(r@ =~= Seq::<Seq<char>>::empty());
        r
    }

    /// The watch list at the start of a session: every asset of the game.
    pub fn for_session() -> (r: AssetsLoading)
        ensures
            r@ == game_assets(),
    {
        proof {
            reveal_strlit("player_character");
            reveal_strlit("alge");
            reveal_strlit("sand");
            reveal_strlit("plateau");
            reveal_strlit("bubble_rot");
            reveal_strlit("bubble_dirt");
            reveal_strlit("bubble_freeze");
            reveal_strlit("bubble_regular");
            assert("player_character"@.len() == 16);
            assert("alge"@.len() == 4 && "alge"@[0] == 'a');
            assert("sand"@.len() == 4 && "sand"@[0] == 's');
            assert("plateau"@.len() == 7);
            assert("bubble_rot"@.len() == 10);
            assert("bubble_dirt"@.len() == 11);
            assert("bubble_freeze"@.len() == 13);
            assert("bubble_regular"@.len() == 14);
        }
        let mut r = AssetsLoading::new();
        r.watch("player_character");
        r.watch("alge");
        r.watch("sand");
        r.watch("plateau");
        r.watch("bubble_rot");
        r.watch("bubble_dirt");
        r.watch("bubble_freeze");
        r.watch("bubble_regular");
        assert(r@ =~= game_assets());
        r
    }

    /// How many assets are under watch.
    pub fn len(&self) -> (r: usize)
        ensures
            r == self@.len(),
            distinct(self@),
    {
        proof {
            use_type_invariant(self);
        }
        self.pending.len()
    }

    /// Whether nothing is under watch.
    pub fn is_empty(&self) -> (r: bool)
        ensures
            r == (self@.len() == 0),
    {
        self.pending.len() == 0
    }

    /// The name of the watched asset at place `i`, if there is one.
    pub fn name(&self, i: usize) -> (r: Option<&str>)
        ensures
            r.is_some() == (i < self@.len()),
            r matches Some(name) ==> name@ == self@[i as int],
    {
        if i < self.pending.len() {
            Some(self.pending[i].as_str())
        } else {
            None
        }
    }

    /// Whether the asset of the given name is under watch.
    pub fn is_watched(&self, name: &str) -> (r: bool)
        ensures
            r == self@.contains(name@),
    {
        let count = self.pending.len();
        let mut i: usize = 0;
        while i < count
            invariant
                i <= count,
                count == self@.len(),
                count == self.pending@.len(),
                forall|j: int| 0 <= j < i ==> self@[j] != name@,
            decreases count - i,
        {
            if same_text(self.pending[i].as_str(), name) {
                assert(self@[i as int] == name@);
                return true;
            }
            i += 1;
        }
        false
    }

    /// Puts the asset of the given name under watch, at the end of the list.
    /// Returns whether it was added: a name that is watched already is not
    /// added again.
    pub fn watch(&mut self, name: &str) -> (added: bool)
        ensures
            added == !old(self)@.contains(name@),
            final(self)@ == if added {
                old(self)@.push(name@)
            } else {
                old(self)@
            },
    {
        proof {
            use_type_invariant(&*self);
        }
        if self.is_watched(name) {
            return false;
        }
        let ghost before = self@;
        let mut pending: Vec<String> = Vec::new();
        core::mem::swap(&mut pending, &mut self.pending);
        pending.push(name.to_owned());
        proof {
            let longer = Seq::new(pending@.len(), |i: int| pending@[i]@);
            assert(longer =~= before.push(name@));
            assert forall|i: int, j: int| 0 <= i < j < longer.len() implies longer[i]
                != longer[j] by {
                if j == before.len() {
                    assert(before[i] != name@);
                }
            }
        }
        let next = AssetsLoading { pending };
        assert(next@ =~= before.push(name@));
        *self = next;
        true
    }

    /// The asset step of one tick. `states[i]` is what the engine reports
    /// for the watched asset at place `i`; an asset without a report counts
    /// as still loading.
    ///
    /// Returns what to do about each watched asset, in the order of the
    /// watch list. An asset that has arrived with its data is no longer
    /// watched afterwards, whether its name is known or not; one that is
    /// still loading or has arrived without data stays watched. The model
    /// of each bubble kind that has arrived is recorded in `models`.
    pub fn on_asset_loaded(&mut self, states: &Vec<LoadState>, models: &mut BubbleModels) -> (done:
        Vec<AssetOutcome>)
        ensures
            done@ == outcomes(old(self)@, states@),
            final(self)@ == still_watched(old(self)@, states@, old(self)@.len()),
            *final(models) == models_with(*old(models), done@),
    {
        proof {
            use_type_invariant(&*self);
        }
        let ghost names = self@;
        let ghost had = *models;
        let count = self.pending.len();
        let mut done: Vec<AssetOutcome> = Vec::new();
        let mut kept: Vec<String> = Vec::new();
        let ghost mut origin: Seq<int> = Seq::empty();
        let mut i: usize = 0;
        while i < count
            invariant
                i <= count,
                count == names.len(),
                count == self.pending@.len(),
                names == self@,
                distinct(names),
                done@ == outcomes(names, states@).take(i as int),
                *models == models_with(had, done@),
                kept@.len() == origin.len(),
                forall|k: int| 0 <= k < origin.len() ==> 0 <= #[trigger] origin[k] < i,
                forall|k: int, l: int| 0 <= k < l < origin.len() ==> origin[k] < origin[l],
                forall|k: int| 0 <= k < origin.len() ==> (#[trigger] kept@[k])@ == names[origin[k]],
                Seq::new(kept@.len(), |k: int| kept@[k]@) == still_watched(names, states@, i as nat),
            decreases count - i,
        {
            let state = if i < states.len() {
                states[i]
            } else {
                LoadState::Loading
            };
            let name = &self.pending[i];
            assert(name@ == names[i as int]);
            let outcome = asset_outcome(name.as_str(), state);
            let ghost seen = done@;
            let ghost watched = Seq::new(kept@.len(), |k: int| kept@[k]@);
            if let AssetOutcome::Model(bubble_type) = outcome {
                models.insert(bubble_type);
            }
            if !outcome.processed() {
                kept.push(name.clone());
                proof {
                    origin = origin.push(i as int);
                    assert(Seq::new(kept@.len(), |k: int| kept@[k]@) =~= watched.push(
                        names[i as int],
                    ));
                }
            }
            done.push(outcome);
            proof {
                assert(done@ =~= outcomes(names, states@).take(i + 1));
                lemma_models_with_push(had, seen, outcome);
            }
            i += 1;
        }
        assert(done@ =~= outcomes(names, states@));
        let next = AssetsLoading { pending: kept };
        proof {
            assert(next@ =~= Seq::new(kept@.len(), |k: int| kept@[k]@));
            assert forall|k: int, l: int| 0 <= k < l < next@.len() implies next@[k] != next@[l] by {
                assert(next@[k] == names[origin[k]]);
                assert(next@[l] == names[origin[l]]);
            }
        }
        *self = next;
        done
    }
}

/// One more outcome adds the model it brings, if it brings one.
proof fn lemma_models_with_push(models: BubbleModels, arrived: Seq<AssetOutcome>, next: AssetOutcome)
    ensures
        models_with(models, arrived.push(next)) == match next {
            AssetOutcome::Model(bubble_type) => models_with(models, arrived).with(bubble_type),
            _ => models_with(models, arrived),
        },
{
    let longer = arrived.push(next);
    assert forall|wanted: AssetOutcome|
        longer.contains(wanted) == (arrived.contains(wanted) || wanted == next) by {
        if arrived.contains(wanted) {
            let k = choose|k: int| 0 <= k < arrived.len() && arrived[k] == wanted;
            assert(longer[k] == wanted);
        }
        if wanted == next {
            assert(longer[arrived.len() as int] == wanted);
        }
        if longer.contains(wanted) {
            let k = choose|k: int| 0 <= k < longer.len() && longer[k] == wanted;
            if k < arrived.len() {
                assert(arrived[k] == wanted);
            }
        }
    }
}

/// Whether the watched asset at place `i` stays watched: it is still
/// loading or has arrived without data.
pub open spec fn stays_watched(names: Seq<Seq<char>>, states: Seq<LoadState>, i: int) -> bool {
    !outcome_of(names[i], state_at(states, i)).is_processed()
}

/// An asset is watched until it has arrived with its data: after the asset
/// step the watch list holds exactly the names that are still loading or
/// have arrived without data.
pub proof fn lemma_watched_until_arrived(names: Seq<Seq<char>>, states: Seq<LoadState>, n: nat)
    requires
        n <= names.len(),
    ensures
        forall|name: Seq<char>|
            still_watched(names, states, n).contains(name) <==> exists|i: int|
                0 <= i < n && names[i] == name && #[trigger] stays_watched(names, states, i),
        still_watched(names, states, n).len() <= n,
    decreases n,
{
    let now = still_watched(names, states, n);
    if n > 0 {
        let fewer = (n - 1) as nat;
        let earlier = still_watched(names, states, fewer);
        lemma_watched_until_arrived(names, states, fewer);
        assert forall|name: Seq<char>| now.contains(name) <==> exists|i: int|
            0 <= i < n && names[i] == name && #[trigger] stays_watched(names, states, i) by {
            if now.contains(name) {
                let k = choose|k: int| 0 <= k < now.len() && now[k] == name;
                if k < earlier.len() {
                    assert(earlier[k] == name);
                    assert(earlier.contains(name));
                    let i = choose|i: int|
                        0 <= i < fewer && names[i] == name && #[trigger] stays_watched(
                            names,
                            states,
                            i,
                        );
                    assert(stays_watched(names, states, i));
                } else {
                    assert(stays_watched(names, states, n - 1));
                }
            }
            if exists|i: int|
                0 <= i < n && names[i] == name && #[trigger] stays_watched(names, states, i) {
                let i = choose|i: int|
                    0 <= i < n && names[i] == name && #[trigger] stays_watched(names, states, i);
                if i < fewer {
                    assert(earlier.contains(name));
                    let k = choose|k: int| 0 <= k < earlier.len() && earlier[k] == name;
                    assert(now[k] == name);
                } else {
                    assert(now[now.len() - 1] == name);
                }
            }
        }
    }
}

} // verus!
