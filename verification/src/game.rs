//! The game session manager: round setup, starting sessions, resolving
//! answers, and the per-block expiry sweep.

use vstd::prelude::*;

use crate::pallet::{Pallet, MAX_ONGOING_GAMES, MAX_PROPERTY};
use crate::types::{DifficultyLevel, Error, Event, GameData, NftColor, Origin};
use crate::user::User;

verus! {

broadcast use vstd::std_specs::hash::group_hash_axioms;

impl Pallet {
    /// Blocks until a session of difficulty `d` expires.
    pub open spec fn expiry_horizon(d: DifficultyLevel) -> u64 {
        match d {
            DifficultyLevel::Player => 8u64,
            DifficultyLevel::Pro => 5u64,
            DifficultyLevel::Practice => 10u64,
        }
    }

    /// The error `setup_game` answers, if any: root only, room for
    /// eight more collections, room for the seeded properties, and a
    /// round counter that can still grow.
    pub open spec fn spec_setup_game_err(self, origin: Origin) -> Option<Error> {
        if origin != Origin::Root {
            Some(Error::BadOrigin)
        } else if self.nfts.spec_next_collection_id() + 8 > u32::MAX {
            Some(Error::ArithmeticOverflow)
        } else if self.test_properties@.len() + 4 > MAX_PROPERTY {
            Some(Error::TooManyTest)
        } else if self.current_round == u32::MAX {
            Some(Error::ArithmeticOverflow)
        } else {
            None
        }
    }

    /// Creates one colour collection: the ledger's next collection id
    /// is taken and bound to the colour of `index`.
    fn create_color_collection(&mut self, index: usize)
        requires
            old(self).nfts.spec_next_collection_id() < u32::MAX,
            index < 8,
        ensures
            final(self).nfts.spec_next_collection_id() == old(self).nfts.spec_next_collection_id()
                + 1,
            forall|c: u32, i: u32| #[trigger]
                final(self).nfts.spec_item(c, i) == old(self).nfts.spec_item(c, i),
            final(self).collection_color@ == old(self).collection_color@.insert(
                old(self).nfts.spec_next_collection_id() as u64,
                NftColor::spec_from_index(index as int)->Some_0,
            ),
            *final(self) == (Pallet {
                nfts: final(self).nfts,
                collection_color: final(self).collection_color,
                ..*old(self)
            }),
    {
        let id = match self.nfts.create_next_collection() {
            Ok(id) => id,
            Err(_) => {
                proof {
                    assert(false);
                }
                return ;
            },
        };
        let color = match NftColor::from_index(index) {
            Some(color) => color,
            None => {
                proof {
                    assert(false);
                }
                return ;
            },
        };
        self.collection_color.insert(id as u64, color);
    }

    /// Creates the setup for a new game: eight fresh colour
    /// collections, the seeded property catalog, and the next round
    /// switched active.
    ///
    /// The origin must be root.
    pub fn setup_game(&mut self, origin: Origin) -> (r: Result<(), Error>)
        requires
            old(self).wf(),
        ensures
            final(self).wf(),
            match r {
                Ok(()) => {
                    let base = old(self).nfts.spec_next_collection_id();
                    &&& old(self).spec_setup_game_err(origin) is None
                    &&& final(self).nfts.spec_next_collection_id() == base + 8
                    &&& (forall|c: u32, i: u32| #[trigger]
                        final(self).nfts.spec_item(c, i) == old(self).nfts.spec_item(c, i))
                    &&& (forall|k: int|
                        0 <= k < 8 ==> final(self).collection_color@.contains_key(
                            (base + k) as u64,
                        ) && final(self).collection_color@[(base + k) as u64]
                            == NftColor::spec_from_index(k)->Some_0)
                    &&& (forall|key: u64|
                        !(base <= key < base + 8) ==> #[trigger] final(self).collection_color@.contains_key(key) == old(self).collection_color@.contains_key(key) && (old(self).collection_color@.contains_key(key) ==> final(self).collection_color@[key]
                            == old(self).collection_color@[key]))
                    &&& final(self).test_properties@.len() == old(self).test_properties@.len() + 4
                    &&& (forall|j: int|
                        0 <= j < old(self).test_properties@.len() ==> final(self).test_properties@[j] == old(self).test_properties@[j])
                    &&& final(self).test_properties@[old(self).test_properties@.len() + 0int].id
                        == Pallet::seed_property_id(0)
                    &&& final(self).test_properties@[old(self).test_properties@.len() + 1int].id
                        == Pallet::seed_property_id(1)
                    &&& final(self).test_properties@[old(self).test_properties@.len() + 2int].id
                        == Pallet::seed_property_id(2)
                    &&& final(self).test_properties@[old(self).test_properties@.len() + 3int].id
                        == Pallet::seed_property_id(2)
                    &&& final(self).test_prices@ == old(self).test_prices@.insert(
                        147229391u64,
                        220000u32,
                    ).insert(146480642u64, 650000u32).insert(147031382u64, 525000u32)
                    &&& final(self).current_round == old(self).current_round + 1
                    &&& final(self).round_active
                    &&& *final(self) == (Pallet {
                        nfts: final(self).nfts,
                        collection_color: final(self).collection_color,
                        test_properties: final(self).test_properties,
                        test_prices: final(self).test_prices,
                        current_round: final(self).current_round,
                        round_active: true,
                        ..*old(self)
                    })
                },
                Err(e) => old(self).spec_setup_game_err(origin) == Some(e) && *final(self) == *old(self),
            },
    {
        if origin != Origin::Root {
            return Err(Error::BadOrigin);
        }
        if self.nfts.next_collection_id() > u32::MAX - 8 {
            return Err(Error::ArithmeticOverflow);
        }
        if self.test_properties.len() > MAX_PROPERTY - 4 {
            return Err(Error::TooManyTest);
        }
        if self.current_round == u32::MAX {
            return Err(Error::ArithmeticOverflow);
        }
        self.create_color_collection(0);
        self.create_color_collection(1);
        self.create_color_collection(2);
        self.create_color_collection(3);
        self.create_color_collection(4);
        self.create_color_collection(5);
        self.create_color_collection(6);
        self.create_color_collection(7);
        self.create_test_properties();
        self.current_round = self.current_round + 1;
        self.round_active = true;
        Ok(())
    }

    /// Eligibility check for starting a session: at most five
    /// practice rounds; Player and Pro require at least one practice
    /// round and 25 or 50 points.
    pub open spec fn spec_play_gate_err(u: User, game_type: DifficultyLevel) -> Option<Error> {
        match game_type {
            DifficultyLevel::Practice => {
                if u.practise_rounds >= 5 {
                    Some(Error::TooManyPractise)
                } else {
                    None
                }
            },
            DifficultyLevel::Player => {
                if u.practise_rounds == 0 {
                    Some(Error::NoPractise)
                } else if u.points < 25 {
                    Some(Error::NotEnoughPoints)
                } else {
                    None
                }
            },
            DifficultyLevel::Pro => {
                if u.practise_rounds == 0 {
                    Some(Error::NoPractise)
                } else if u.points < 50 {
                    Some(Error::NotEnoughPoints)
                } else {
                    None
                }
            },
        }
    }

    /// The error `play_game` answers, if any.
    pub open spec fn spec_play_game_err(self, origin: Origin, game_type: DifficultyLevel) -> Option<
        Error,
    > {
        match origin {
            Origin::Root => Some(Error::BadOrigin),
            Origin::Signed(s) => {
                if !self.users@.contains_key(s) {
                    Some(Error::UserNotRegistered)
                } else if Pallet::spec_play_gate_err(self.users@[s], game_type) is Some {
                    Pallet::spec_play_gate_err(self.users@[s], game_type)
                } else if !self.round_active {
                    Some(Error::NoActiveRound)
                } else if self.current_round != self.users@[s].last_played_round
                    && self.users@[s].last_played_round == u32::MAX {
                    Some(Error::ArithmeticOverflow)
                } else if ({
                    let bucket = crate::pallet::sat_add64(
                        self.block_number,
                        Pallet::expiry_horizon(game_type),
                    );
                    self.games_expiring@.contains_key(bucket) && self.games_expiring@[bucket]@.len()
                        >= MAX_ONGOING_GAMES
                }) {
                    Some(Error::TooManyGames)
                } else if self.test_properties@.len() == 0 {
                    Some(Error::NoProperty)
                } else if self.game_id == u32::MAX {
                    Some(Error::ArithmeticOverflow)
                } else {
                    None
                }
            },
        }
    }

    /// The caller's record as `play_game` leaves it: on the first play
    /// of a new round the collected colours reset and the round marker
    /// advances.
    pub open spec fn spec_played_user(self, u: User) -> User {
        if self.current_round != u.last_played_round {
            User {
                nfts: crate::colors::CollectedColors::empty(),
                last_played_round: (u.last_played_round + 1) as u32,
                ..u
            }
        } else {
            u
        }
    }

    /// Starts a game session for the caller: gates by difficulty,
    /// resets the colour set on the first play of a new round,
    /// schedules the session's expiry, snapshots a
    /// pseudo-randomly chosen property, and hands out the next game
    /// id.
    ///
    /// `random_value` is the host randomness beacon's output for this
    /// call, reduced to a machine word; the choice of property is its
    /// remainder modulo the catalog size.
    pub fn play_game(&mut self, origin: Origin, game_type: DifficultyLevel, random_value: u32) -> (
        r: Result<(), Error>)
        requires
            old(self).wf(),
        ensures
            final(self).wf(),
            match r {
                Ok(()) => {
                    let signer = origin->Signed_0;
                    let bucket = crate::pallet::sat_add64(
                        old(self).block_number,
                        Pallet::expiry_horizon(game_type),
                    );
                    let gid = old(self).game_id as u64;
                    let idx = random_value as int % old(self).test_properties@.len() as int;
                    &&& old(self).spec_play_game_err(origin, game_type) is None
                    &&& origin matches Origin::Signed(_)
                    &&& final(self).users@ == old(self).users@.insert(
                        signer,
                        old(self).spec_played_user(old(self).users@[signer]),
                    )
                    &&& final(self).games_expiring@.contains_key(bucket)
                    &&& final(self).games_expiring@[bucket]@ == (if old(self).games_expiring@.contains_key(bucket) {
                        old(self).games_expiring@[bucket]@
                    } else {
                        Seq::<u32>::empty()
                    }).push(old(self).game_id)
                    &&& (forall|b: u64|
                        b != bucket ==> #[trigger] final(self).games_expiring@.contains_key(b)
                            == old(self).games_expiring@.contains_key(b) && (old(self).games_expiring@.contains_key(b) ==> final(self).games_expiring@[b] == old(self).games_expiring@[b]))
                    &&& final(self).game_info@.contains_key(gid)
                    &&& final(self).game_info@[gid]@ == (crate::types::GameView {
                        difficulty: game_type,
                        player: signer,
                        property: old(self).test_properties@[idx]@,
                    })
                    &&& (forall|k: u64|
                        k != gid ==> #[trigger] final(self).game_info@.contains_key(k) == old(self).game_info@.contains_key(k) && (old(self).game_info@.contains_key(k)
                            ==> final(self).game_info@[k] == old(self).game_info@[k]))
                    &&& final(self).game_id == old(self).game_id + 1
                    &&& final(self).events@ == old(self).events@.push(
                        Event::GameStarted { player: signer, game_id: old(self).game_id },
                    )
                    &&& *final(self) == (Pallet {
                        users: final(self).users,
                        games_expiring: final(self).games_expiring,
                        game_info: final(self).game_info,
                        game_id: final(self).game_id,
                        events: final(self).events,
                        ..*old(self)
                    })
                },
                Err(e) => old(self).spec_play_game_err(origin, game_type) == Some(e) && *final(self)
                    == *old(self),
            },
    {
        let signer = match origin {
            Origin::Signed(s) => s,
            Origin::Root => {
                return Err(Error::BadOrigin);
            },
        };
        let user = match self.users.get(&signer) {
            Some(u) => *u,
            None => {
                return Err(Error::UserNotRegistered);
            },
        };
        // Difficulty gate.
        match game_type {
            DifficultyLevel::Practice => {
                if user.practise_rounds >= 5 {
                    return Err(Error::TooManyPractise);
                }
            },
            DifficultyLevel::Player => {
                if user.practise_rounds == 0 {
                    return Err(Error::NoPractise);
                }
                if user.points < 25 {
                    return Err(Error::NotEnoughPoints);
                }
            },
            DifficultyLevel::Pro => {
                if user.practise_rounds == 0 {
                    return Err(Error::NoPractise);
                }
                if user.points < 50 {
                    return Err(Error::NotEnoughPoints);
                }
            },
        }
        if !self.round_active {
            return Err(Error::NoActiveRound);
        }
        let rollover = self.current_round != user.last_played_round;
        if rollover && user.last_played_round == u32::MAX {
            return Err(Error::ArithmeticOverflow);
        }
        let horizon: u64 = match game_type {
            DifficultyLevel::Player => 8,
            DifficultyLevel::Pro => 5,
            DifficultyLevel::Practice => 10,
        };
        let bucket = match self.block_number.checked_add(horizon) {
            Some(b) => b,
            None => u64::MAX,
        };
        match self.games_expiring.get(&bucket) {
            Some(ids) => {
                if ids.len() >= MAX_ONGOING_GAMES {
                    return Err(Error::TooManyGames);
                }
            },
            None => {},
        }
        if self.test_properties.len() == 0 {
            return Err(Error::NoProperty);
        }
        if self.game_id == u32::MAX {
            return Err(Error::ArithmeticOverflow);
        }
        // Commit.
        let updated = if rollover {
            User {
                nfts: crate::colors::CollectedColors::default(),
                last_played_round: user.last_played_round + 1,
                ..user
            }
        } else {
            user
        };
        self.users.insert(signer, updated);
        let mut ids = match self.games_expiring.remove(&bucket) {
            Some(v) => v,
            None => Vec::new(),
        };
        ids.push(self.game_id);
        self.games_expiring.insert(bucket, ids);
        let idx = (random_value as usize) % self.test_properties.len();
        let property = self.test_properties[idx].clone();
        let session = GameData { difficulty: game_type, player: signer, property };
        self.game_info.insert(self.game_id as u64, session);
        self.events.push(Event::GameStarted { player: signer, game_id: self.game_id });
        self.game_id = self.game_id + 1;
        Ok(())
    }

    /// Signed point delta of an answer with error `d` outside the
    /// minting bucket, by difficulty.
    pub open spec fn reward_delta(difficulty: DifficultyLevel, d: u32) -> int {
        if difficulty is Pro {
            crate::scoring::pro_reward(d)
        } else {
            crate::scoring::player_reward(d)
        }
    }

    /// The collection a winning answer mints from: one of the eight
    /// collections of the current round, picked by the random draw.
    pub open spec fn spec_mint_collection(round: u32, random_value: u32) -> u32 {
        (random_value % 8 + 8 * (round - 1)) as u32
    }

    /// A user record after a flat practice reward: five points and one
    /// more practice round.
    pub open spec fn spec_practice_user(u: User) -> User {
        User {
            points: (u.points + 5) as u32,
            practise_rounds: (u.practise_rounds + 1) as u8,
            ..u
        }
    }

    /// A user record after a plain table reward or penalty.
    pub open spec fn spec_table_user(u: User, delta: int) -> User {
        User { points: (u.points + delta) as u32, ..u }
    }

    /// A user record after being minted one NFT of `color`: the colour
    /// counter grows by one and the tier reward for the new count is
    /// added.
    pub open spec fn spec_mint_user(u: User, color: NftColor) -> User {
        let n = (u.nfts.count_of(color) + 1) as u32;
        User {
            nfts: u.nfts.with_count(color, n),
            points: (u.points + crate::user::gain_points_for_count(n)) as u32,
            ..u
        }
    }

    /// The record the answering player ends up with, by difficulty and
    /// error bucket.
    pub open spec fn spec_answer_user(s: Pallet, game: GameData, d: u32, random_value: u32) -> User {
        let u = s.users@[game.player];
        match game.difficulty {
            DifficultyLevel::Practice => Pallet::spec_practice_user(u),
            _ => {
                if d <= 10 {
                    let col = Pallet::spec_mint_collection(s.current_round, random_value);
                    Pallet::spec_mint_user(u, s.collection_color@[col as u64])
                } else {
                    Pallet::spec_table_user(u, Pallet::reward_delta(game.difficulty, d))
                }
            },
        }
    }

    /// The error `submit_answer` answers, if any.
    pub open spec fn spec_submit_answer_err(
        self,
        origin: Origin,
        guess: u32,
        game_id: u32,
        random_value: u32,
    ) -> Option<Error> {
        match origin {
            Origin::Root => Some(Error::BadOrigin),
            Origin::Signed(s) => {
                if !self.game_info@.contains_key(game_id as u64) {
                    Some(Error::NoActiveGame)
                } else {
                    let game = self.game_info@[game_id as u64];
                    if game.player != s {
                        Some(Error::NoThePlayer)
                    } else if !self.test_prices@.contains_key(game.property.id as u64) {
                        Some(Error::NoProperty)
                    } else {
                        let price = self.test_prices@[game.property.id as u64];
                        match crate::scoring::spec_difference(price, guess) {
                            Err(e) => Some(e),
                            Ok(d) => {
                                let u = self.users@[s];
                                match game.difficulty {
                                    DifficultyLevel::Practice => {
                                        if u.points + 5 > u32::MAX || u.practise_rounds == 255 {
                                            Some(Error::ArithmeticOverflow)
                                        } else {
                                            None
                                        }
                                    },
                                    _ => {
                                        if d <= 10 {
                                            self.spec_mint_err(u, random_value)
                                        } else {
                                            let delta = Pallet::reward_delta(game.difficulty, d);
                                            if delta >= 0 {
                                                if u.points + delta > u32::MAX {
                                                    Some(Error::ArithmeticOverflow)
                                                } else {
                                                    None
                                                }
                                            } else {
                                                if u.points < -delta {
                                                    Some(Error::ArithmeticUnderflow)
                                                } else {
                                                    None
                                                }
                                            }
                                        }
                                    },
                                }
                            },
                        }
                    }
                }
            },
        }
    }

    /// The error the minting path of a winning answer hits, if any.
    pub open spec fn spec_mint_err(self, u: User, random_value: u32) -> Option<Error> {
        if self.current_round == 0 {
            Some(Error::ArithmeticUnderflow)
        } else if 8 * (self.current_round - 1) > u32::MAX {
            Some(Error::MultiplyError)
        } else if random_value % 8 + 8 * (self.current_round - 1) > u32::MAX {
            Some(Error::ArithmeticOverflow)
        } else {
            let col = Pallet::spec_mint_collection(self.current_round, random_value);
            if !self.collection_color@.contains_key(col as u64) {
                Some(Error::CollectionUnknown)
            } else {
                let item = if self.next_color_id@.contains_key(col as u64) {
                    self.next_color_id@[col as u64]
                } else {
                    0u32
                };
                if item == u32::MAX {
                    Some(Error::ArithmeticOverflow)
                } else {
                    let color = self.collection_color@[col as u64];
                    if u.nfts.count_of(color) == u32::MAX {
                        Some(Error::ArithmeticOverflow)
                    } else if u.points + crate::user::gain_points_for_count(
                        (u.nfts.count_of(color) + 1) as u32,
                    ) > u32::MAX {
                        Some(Error::ArithmeticOverflow)
                    } else {
                        None
                    }
                }
            }
        }
    }

    /// Checks the caller's answer against the property's true price
    /// and settles the session: flat reward on Practice; otherwise a
    /// tiered reward or penalty by error bucket, with an error of ten
    /// per mille or less minting a colour NFT of the current round —
    /// completing four of all eight colours ends the round.  The
    /// session is removed and the leaderboard re-ranked.
    ///
    /// `random_value` is the host randomness beacon's output for this
    /// call; a mint draws its collection from it.
    pub fn submit_answer(&mut self, origin: Origin, guess: u32, game_id: u32, random_value: u32)
        -> (r: Result<(), Error>)
        requires
            old(self).wf(),
        ensures
            final(self).wf(),
            match r {
                Ok(()) => ({
                    let gid = game_id as u64;
                    let game = old(self).game_info@[gid];
                    let price = old(self).test_prices@[game.property.id as u64];
                    let d = crate::scoring::spec_difference(price, guess)->Ok_0;
                    let u2 = Pallet::spec_answer_user(*old(self), game, d, random_value);
                    &&& old(self).spec_submit_answer_err(origin, guess, game_id, random_value)
                        is None
                    &&& final(self).users@ == old(self).users@.insert(game.player, u2)
                    &&& crate::leaderboard::lb_updated(
                        old(self).leaderboard@,
                        final(self).leaderboard@,
                        game.player,
                        u2.points,
                    )
                    &&& !final(self).game_info@.contains_key(gid)
                    &&& (forall|k: u64|
                        k != gid ==> #[trigger] final(self).game_info@.contains_key(k) == old(
                            self,
                        ).game_info@.contains_key(k) && (old(self).game_info@.contains_key(k)
                            ==> final(self).game_info@[k] == old(self).game_info@[k]))
                    &&& final(self).events@ == old(self).events@.push(
                        Event::AnswerSubmitted { player: game.player, game_id },
                    )
                    &&& ((game.difficulty is Practice || d > 10) ==> *final(self) == (Pallet {
                        users: final(self).users,
                        leaderboard: final(self).leaderboard,
                        game_info: final(self).game_info,
                        events: final(self).events,
                        ..*old(self)
                    }))
                    &&& ((game.difficulty !is Practice && d <= 10) ==> ({
                        let col = Pallet::spec_mint_collection(old(self).current_round, random_value);
                        let item = if old(self).next_color_id@.contains_key(col as u64) {
                            old(self).next_color_id@[col as u64]
                        } else {
                            0u32
                        };
                        &&& final(self).nfts.spec_item(col, item) == Some(
                            crate::nfts::NftItem { owner: game.player, locked: true },
                        )
                        &&& (forall|c: u32, i: u32|
                            !(c == col && i == item) ==> #[trigger] final(self).nfts.spec_item(c, i)
                                == old(self).nfts.spec_item(c, i))
                        &&& final(self).nfts.spec_next_collection_id() == old(
                            self,
                        ).nfts.spec_next_collection_id()
                        &&& final(self).next_color_id@ == old(self).next_color_id@.insert(
                            col as u64,
                            (item + 1) as u32,
                        )
                        &&& (u2.nfts.spec_has_four_of_all_colors() ==> !final(self).round_active
                            && final(self).round_champion@ == old(self).round_champion@.insert(
                            old(self).current_round as u64,
                            game.player,
                        ))
                        &&& (!u2.nfts.spec_has_four_of_all_colors() ==> final(self).round_active
                            == old(self).round_active && final(self).round_champion@ == old(
                            self,
                        ).round_champion@)
                        &&& *final(self) == (Pallet {
                            users: final(self).users,
                            leaderboard: final(self).leaderboard,
                            game_info: final(self).game_info,
                            events: final(self).events,
                            nfts: final(self).nfts,
                            next_color_id: final(self).next_color_id,
                            round_active: final(self).round_active,
                            round_champion: final(self).round_champion,
                            ..*old(self)
                        })
                    }))
                }),
                Err(e) => old(self).spec_submit_answer_err(origin, guess, game_id, random_value)
                    == Some(e) && *final(self) == *old(self),
            },
    {
        let signer = match origin {
            Origin::Signed(s) => s,
            Origin::Root => {
                return Err(Error::BadOrigin);
            },
        };
        let (difficulty, player, property_id) = match self.game_info.get(&(game_id as u64)) {
            Some(game) => (game.difficulty, game.player, game.property.id),
            None => {
                return Err(Error::NoActiveGame);
            },
        };
        if player != signer {
            return Err(Error::NoThePlayer);
        }
        let price = match self.test_prices.get(&(property_id as u64)) {
            Some(p) => *p,
            None => {
                return Err(Error::NoProperty);
            },
        };
        let d = match crate::scoring::compute_difference(price, guess) {
            Ok(d) => d,
            Err(e) => {
                return Err(e);
            },
        };
        let mut user = match self.users.get(&player) {
            Some(u) => *u,
            None => {
                proof {
                    assert(false);
                }
                return Err(Error::UserNotRegistered);
            },
        };
        match difficulty {
            DifficultyLevel::Practice => {
                user.points = match user.points.checked_add(5) {
                    Some(p) => p,
                    None => {
                        return Err(Error::ArithmeticOverflow);
                    },
                };
                user.practise_rounds = match user.practise_rounds.checked_add(1) {
                    Some(p) => p,
                    None => {
                        return Err(Error::ArithmeticOverflow);
                    },
                };
                self.users.insert(player, user);
                self.leaderboard.update(player, user.points);
                self.game_info.remove(&(game_id as u64));
                self.events.push(Event::AnswerSubmitted { player, game_id });
                Ok(())
            },
            _ => {
                if d <= 10 {
                    let round_index = match self.current_round.checked_sub(1) {
                        Some(r) => r,
                        None => {
                            return Err(Error::ArithmeticUnderflow);
                        },
                    };
                    let batch = match round_index.checked_mul(8) {
                        Some(m) => m,
                        None => {
                            return Err(Error::MultiplyError);
                        },
                    };
                    let col = match (random_value % 8).checked_add(batch) {
                        Some(c) => c,
                        None => {
                            return Err(Error::ArithmeticOverflow);
                        },
                    };
                    let color = match self.collection_color.get(&(col as u64)) {
                        Some(c) => *c,
                        None => {
                            return Err(Error::CollectionUnknown);
                        },
                    };
                    let item = match self.next_color_id.get(&(col as u64)) {
                        Some(n) => *n,
                        None => 0,
                    };
                    let next_item = match item.checked_add(1) {
                        Some(n) => n,
                        None => {
                            return Err(Error::ArithmeticOverflow);
                        },
                    };
                    match user.add_nft_color(color) {
                        Ok(()) => {},
                        Err(e) => {
                            return Err(e);
                        },
                    }
                    let gain = user.calculate_points(color);
                    user.points = match user.points.checked_add(gain) {
                        Some(p) => p,
                        None => {
                            return Err(Error::ArithmeticOverflow);
                        },
                    };
                    // The chosen item id is fresh: minted ids stay
                    // below the per-collection counter.
                    proof {
                        assert(self.nfts.spec_item(col, item) is None);
                    }
                    self.nfts.mint(col, item, player);
                    self.nfts.lock(col, item);
                    self.next_color_id.insert(col as u64, next_item);
                    self.users.insert(player, user);
                    if user.has_four_of_all_colors() {
                        self.round_active = false;
                        self.round_champion.insert(self.current_round as u64, player);
                    }
                    self.leaderboard.update(player, user.points);
                    self.game_info.remove(&(game_id as u64));
                    self.events.push(Event::AnswerSubmitted { player, game_id });
                    Ok(())
                } else {
                    let (gains, amount) = if matches!(difficulty, DifficultyLevel::Pro) {
                        crate::scoring::pro_reward_of(d)
                    } else {
                        crate::scoring::player_reward_of(d)
                    };
                    user.points = if gains {
                        match user.points.checked_add(amount) {
                            Some(p) => p,
                            None => {
                                return Err(Error::ArithmeticOverflow);
                            },
                        }
                    } else {
                        match user.points.checked_sub(amount) {
                            Some(p) => p,
                            None => {
                                return Err(Error::ArithmeticUnderflow);
                            },
                        }
                    };
                    self.users.insert(player, user);
                    self.leaderboard.update(player, user.points);
                    self.game_info.remove(&(game_id as u64));
                    self.events.push(Event::AnswerSubmitted { player, game_id });
                    Ok(())
                }
            },
        }
    }

    /// A user record after a session of difficulty `d` timed out with
    /// no answer: Player loses 10 points, Pro loses 20, Practice loses
    /// nothing.  A penalty the balance cannot carry is skipped.
    pub open spec fn spec_no_answer_user(u: User, d: DifficultyLevel) -> User {
        match d {
            DifficultyLevel::Practice => u,
            DifficultyLevel::Player => {
                if u.points >= 10 {
                    User { points: (u.points - 10) as u32, ..u }
                } else {
                    u
                }
            },
            DifficultyLevel::Pro => {
                if u.points >= 20 {
                    User { points: (u.points - 20) as u32, ..u }
                } else {
                    u
                }
            },
        }
    }

    /// The expiry sweep over a list of game ids, processed in order:
    /// each id still holding a session has the session removed and the
    /// no-answer penalty applied to its player; an id whose session is
    /// already resolved is skipped.
    pub open spec fn spec_expire(
        users: Map<u64, User>,
        games: Map<u64, GameData>,
        ids: Seq<u32>,
    ) -> (Map<u64, User>, Map<u64, GameData>)
        decreases ids.len(),
    {
        if ids.len() == 0 {
            (users, games)
        } else {
            let id = ids[0] as u64;
            let rest = ids.drop_first();
            if games.contains_key(id) {
                let game = games[id];
                let users2 = if users.contains_key(game.player) {
                    users.insert(
                        game.player,
                        Pallet::spec_no_answer_user(users[game.player], game.difficulty),
                    )
                } else {
                    users
                };
                Pallet::spec_expire(users2, games.remove(id), rest)
            } else {
                Pallet::spec_expire(users, games, rest)
            }
        }
    }

    /// How one expiry sweep of block `n` relates the state before
    /// (`pre`) and after (`post`): the bucket for `n` is consumed and
    /// its ids are processed in order by [`Pallet::spec_expire`];
    /// nothing else changes.
    pub open spec fn swept(pre: Pallet, post: Pallet, n: u64) -> bool {
        let ids = if pre.games_expiring@.contains_key(n) {
            pre.games_expiring@[n]@
        } else {
            Seq::<u32>::empty()
        };
        let sweep = Pallet::spec_expire(pre.users@, pre.game_info@, ids);
        &&& post.users@ == sweep.0
        &&& post.game_info@ == sweep.1
        &&& post.games_expiring@ == pre.games_expiring@.remove(n)
        &&& post == (Pallet {
            users: post.users,
            game_info: post.game_info,
            games_expiring: post.games_expiring,
            ..pre
        })
    }

    /// The per-block expiry sweep: consumes block `n`'s expiry bucket,
    /// removes each session still live in it, and applies the
    /// no-answer penalty to its player.  A session already resolved is
    /// silently skipped, and a bucket already consumed is empty.
    pub fn on_initialize(&mut self, n: u64)
        requires
            old(self).wf(),
        ensures
            final(self).wf(),
            Pallet::swept(*old(self), *final(self), n),
    {
        let bucket = match self.games_expiring.remove(&n) {
            Some(v) => v,
            None => Vec::new(),
        };
        let ghost users0 = self.users@;
        let ghost games0 = self.game_info@;
        let ghost all = bucket@;
        proof {
            assert(all.skip(0) =~= all);
        }
        let mut j: usize = 0;
        #[verifier::loop_isolation(false)]
        while j < bucket.len()
            invariant
                j <= all.len(),
                bucket@ == all,
                Pallet::spec_expire(users0, games0, all) == Pallet::spec_expire(
                    self.users@,
                    self.game_info@,
                    all.skip(j as int),
                ),
                forall|k: u64| #[trigger]
                    self.game_info@.contains_key(k) ==> games0.contains_key(k)
                        && self.game_info@[k] == games0[k],
                forall|a: u64| #[trigger]
                    self.users@.contains_key(a) == users0.contains_key(a),
                forall|a: u64| #[trigger]
                    self.users@.contains_key(a) ==> self.users@[a] == (User {
                        points: self.users@[a].points,
                        ..users0[a]
                    }),
                *self == (Pallet {
                    users: self.users,
                    game_info: self.game_info,
                    games_expiring: self.games_expiring,
                    ..*old(self)
                }),
                self.games_expiring@ == old(self).games_expiring@.remove(n),
            decreases all.len() - j,
        {
            let id = bucket[j];
            proof {
                assert(all.skip(j as int)[0] == all[j as int]);
                assert(all.skip(j as int).drop_first() =~= all.skip(j as int + 1));
            }
            match self.game_info.remove(&(id as u64)) {
                Some(game) => {
                    match self.users.get(&game.player) {
                        Some(u) => {
                            let mut user = *u;
                            match game.difficulty {
                                DifficultyLevel::Practice => {},
                                DifficultyLevel::Player => {
                                    match user.points.checked_sub(10) {
                                        Some(p) => {
                                            user.points = p;
                                        },
                                        None => {},
                                    }
                                },
                                DifficultyLevel::Pro => {
                                    match user.points.checked_sub(20) {
                                        Some(p) => {
                                            user.points = p;
                                        },
                                        None => {},
                                    }
                                },
                            }
                            self.users.insert(game.player, user);
                        },
                        None => {},
                    }
                },
                None => {},
            }
            j = j + 1;
        }
        proof {
            assert(all.skip(all.len() as int) =~= Seq::<u32>::empty());
        }
    }
}

} // verus!
