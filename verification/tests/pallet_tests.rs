use pallet_game::nfts::NftError;
use pallet_game::pallet::Pallet;
use pallet_game::types::{DifficultyLevel, Error, Offer, Origin, PropertyInfoData};

/// Plays one practice round for `player` and answers it exactly.
fn practise_round(game: &mut Pallet, player: u64, game_id: u32) {
    assert_eq!(game.play_game(Origin::Signed(player), DifficultyLevel::Practice, 0), Ok(()));
    assert_eq!(game.submit_answer(Origin::Signed(player), 220000, game_id, 0), Ok(()));
}

fn new_game() -> Pallet {
    let mut game = Pallet::new();
    game.set_block_number(1);
    game
}

#[test]
fn setup_game_works() {
    let mut game = new_game();
    assert_eq!(game.setup_game(Origin::Root), Ok(()));
}

#[test]
fn setup_game_fails() {
    let mut game = new_game();
    assert_eq!(game.setup_game(Origin::Signed(0)), Err(Error::BadOrigin));
}

#[test]
fn add_to_admins_works() {
    let mut game = new_game();
    assert_eq!(game.add_to_admins(Origin::Root, 0), Ok(()));
    assert_eq!(game.admins.len(), 1);
}

#[test]
fn add_to_admins_fails() {
    let mut game = new_game();
    assert_eq!(game.add_to_admins(Origin::Signed(0), 0), Err(Error::BadOrigin));
    assert_eq!(game.add_to_admins(Origin::Root, 0), Ok(()));
    assert_eq!(game.admins.len(), 1);
    assert_eq!(game.add_to_admins(Origin::Root, 0), Err(Error::AccountAlreadyAdmin));
}

#[test]
fn remove_admins_works() {
    let mut game = new_game();
    assert_eq!(game.add_to_admins(Origin::Root, 0), Ok(()));
    assert_eq!(game.admins.len(), 1);
    assert_eq!(game.remove_from_admins(Origin::Root, 0), Ok(()));
    assert_eq!(game.admins.len(), 0);
}

#[test]
fn remove_admins_fails() {
    let mut game = new_game();
    assert_eq!(game.remove_from_admins(Origin::Root, 0), Err(Error::NotAdmin));
    assert_eq!(game.add_to_admins(Origin::Root, 0), Ok(()));
    assert_eq!(game.admins.len(), 1);
    assert_eq!(game.remove_from_admins(Origin::Signed(0), 0), Err(Error::BadOrigin));
}

#[test]
fn play_game_works() {
    let mut game = new_game();
    assert_eq!(game.setup_game(Origin::Root), Ok(()));
    assert_eq!(game.test_properties.len(), 4);
    assert_eq!(game.add_to_admins(Origin::Root, 4), Ok(()));
    assert_eq!(game.register_user(Origin::Signed(4), 0), Ok(()));
    assert_eq!(game.give_points(Origin::Root, 0), Ok(()));
    practise_round(&mut game, 0, 0);
    assert_eq!(game.play_game(Origin::Signed(0), DifficultyLevel::Player, 0), Ok(()));
    assert_eq!(game.game_info.get(&1).unwrap().property.id, 147229391);
}

#[test]
fn play_game_fails() {
    let mut game = new_game();
    assert_eq!(game.setup_game(Origin::Root), Ok(()));
    assert_eq!(game.test_properties.len(), 4);
    assert_eq!(
        game.play_game(Origin::Signed(0), DifficultyLevel::Player, 0),
        Err(Error::UserNotRegistered)
    );
}

#[test]
fn play_game_fails_no_active_round() {
    let mut game = new_game();
    assert_eq!(game.add_to_admins(Origin::Root, 4), Ok(()));
    assert_eq!(game.register_user(Origin::Signed(4), 0), Ok(()));
    assert_eq!(
        game.play_game(Origin::Signed(0), DifficultyLevel::Practice, 0),
        Err(Error::NoActiveRound)
    );
}

#[test]
fn play_game_fails_not_enough_points() {
    let mut game = new_game();
    assert_eq!(game.setup_game(Origin::Root), Ok(()));
    assert_eq!(game.test_properties.len(), 4);
    assert_eq!(game.add_to_admins(Origin::Root, 4), Ok(()));
    assert_eq!(game.register_user(Origin::Signed(4), 0), Ok(()));
    practise_round(&mut game, 0, 0);
    assert_eq!(game.play_game(Origin::Signed(0), DifficultyLevel::Player, 0), Ok(()));
    assert_eq!(game.submit_answer(Origin::Signed(0), 10, 1, 0), Ok(()));
    assert_eq!(game.play_game(Origin::Signed(0), DifficultyLevel::Player, 0), Ok(()));
}

#[test]
fn submit_answer_works() {
    let mut game = new_game();
    assert_eq!(game.setup_game(Origin::Root), Ok(()));
    assert_eq!(game.test_properties.len(), 4);
    assert_eq!(game.add_to_admins(Origin::Root, 4), Ok(()));
    assert_eq!(game.register_user(Origin::Signed(4), 0), Ok(()));
    practise_round(&mut game, 0, 0);
    assert_eq!(game.play_game(Origin::Signed(0), DifficultyLevel::Player, 0), Ok(()));
    assert_eq!(game.submit_answer(Origin::Signed(0), 223_000, 1, 0), Ok(()));
    assert!(game.game_info.get(&0).is_none());
    assert_eq!(game.users.get(&0).unwrap().points, 80);
    assert_eq!(game.play_game(Origin::Signed(0), DifficultyLevel::Player, 0), Ok(()));
    assert_eq!(game.submit_answer(Origin::Signed(0), 220_000, 2, 0), Ok(()));
    assert!(game.game_info.get(&1).is_none());
    assert_eq!(game.users.get(&0).unwrap().points, 180);
    assert_eq!(game.nfts.owner(0, 0).unwrap(), 0);
    assert_eq!(game.users.get(&0).unwrap().nfts.xorange, 1);
}

#[test]
fn leaderboard_works() {
    let mut game = new_game();
    assert_eq!(game.setup_game(Origin::Root), Ok(()));
    assert_eq!(game.test_properties.len(), 4);
    assert_eq!(game.add_to_admins(Origin::Root, 4), Ok(()));
    assert_eq!(game.register_user(Origin::Signed(4), 0), Ok(()));
    assert_eq!(game.register_user(Origin::Signed(4), 1), Ok(()));
    assert_eq!(game.register_user(Origin::Signed(4), 2), Ok(()));
    practise_round(&mut game, 0, 0);
    practise_round(&mut game, 1, 1);
    practise_round(&mut game, 2, 2);
    assert_eq!(game.play_game(Origin::Signed(0), DifficultyLevel::Player, 0), Ok(()));
    assert_eq!(game.submit_answer(Origin::Signed(0), 230_000, 3, 0), Ok(()));
    assert_eq!(game.play_game(Origin::Signed(1), DifficultyLevel::Player, 0), Ok(()));
    assert_eq!(game.submit_answer(Origin::Signed(1), 225_000, 4, 0), Ok(()));
    assert_eq!(game.play_game(Origin::Signed(2), DifficultyLevel::Player, 0), Ok(()));
    assert_eq!(game.submit_answer(Origin::Signed(2), 220_000, 5, 0), Ok(()));
    assert!(game.game_info.get(&0).is_none());
    assert_eq!(game.users.get(&2).unwrap().points, 155);
    assert_eq!(game.users.get(&1).unwrap().points, 80);
    assert_eq!(game.users.get(&0).unwrap().points, 70);
    assert_eq!(game.leaderboard.len(), 3);
    assert_eq!(game.leaderboard.entry(0), (2, 155));
    assert_eq!(game.leaderboard.entry(1), (1, 80));
    assert_eq!(game.leaderboard.entry(2), (0, 70));
}

#[test]
fn submit_answer_fails() {
    let mut game = new_game();
    assert_eq!(game.setup_game(Origin::Root), Ok(()));
    assert_eq!(game.test_properties.len(), 4);
    assert_eq!(game.submit_answer(Origin::Signed(0), 223_000, 0, 0), Err(Error::NoActiveGame));
}

#[test]
fn transfer_of_nft_does_not_work() {
    let mut game = new_game();
    assert_eq!(game.setup_game(Origin::Root), Ok(()));
    assert_eq!(game.test_properties.len(), 4);
    assert_eq!(game.add_to_admins(Origin::Root, 4), Ok(()));
    assert_eq!(game.register_user(Origin::Signed(4), 0), Ok(()));
    assert_eq!(game.give_points(Origin::Root, 0), Ok(()));
    practise_round(&mut game, 0, 0);
    assert_eq!(game.play_game(Origin::Signed(0), DifficultyLevel::Player, 0), Ok(()));
    assert_eq!(game.submit_answer(Origin::Signed(0), 220_000, 1, 0), Ok(()));
    assert!(game.game_info.get(&1).is_none());
    assert_eq!(game.nfts.owner(0, 0).unwrap(), 0);
    assert_eq!(game.nfts.transfer(0, 0, 0, 1), Err(NftError::ItemLocked));
}

#[test]
fn list_nft_works() {
    let mut game = new_game();
    assert_eq!(game.setup_game(Origin::Root), Ok(()));
    assert_eq!(game.test_properties.len(), 4);
    assert_eq!(game.add_to_admins(Origin::Root, 4), Ok(()));
    assert_eq!(game.register_user(Origin::Signed(4), 0), Ok(()));
    practise_round(&mut game, 0, 0);
    assert_eq!(game.play_game(Origin::Signed(0), DifficultyLevel::Player, 0), Ok(()));
    assert_eq!(game.submit_answer(Origin::Signed(0), 220_000, 1, 0), Ok(()));
    assert!(game.game_info.get(&1).is_none());
    assert_eq!(game.users.get(&0).unwrap().points, 155);
    assert_eq!(game.nfts.owner(0, 0).unwrap(), 0);
    assert_eq!(game.list_nft(Origin::Signed(0), 0, 0), Ok(()));
    assert_eq!(game.nfts.owner(0, 0).unwrap(), game.account_id());
    assert_eq!(game.listings.get(&0).unwrap().owner, 0);
}

#[test]
fn list_nft_doesnt_work() {
    let mut game = new_game();
    assert_eq!(game.setup_game(Origin::Root), Ok(()));
    assert_eq!(game.test_properties.len(), 4);
    assert_eq!(game.add_to_admins(Origin::Root, 4), Ok(()));
    assert_eq!(game.register_user(Origin::Signed(4), 0), Ok(()));
    practise_round(&mut game, 0, 0);
    assert_eq!(game.play_game(Origin::Signed(0), DifficultyLevel::Player, 0), Ok(()));
    assert_eq!(game.submit_answer(Origin::Signed(0), 220_000, 1, 0), Ok(()));
    assert!(game.game_info.get(&1).is_none());
    assert_eq!(game.users.get(&0).unwrap().points, 155);
    assert_eq!(game.nfts.owner(0, 0).unwrap(), 0);
    assert_eq!(game.list_nft(Origin::Signed(1), 0, 0), Err(Error::NoPermission));
}

#[test]
fn delist_nft_works() {
    let mut game = new_game();
    assert_eq!(game.setup_game(Origin::Root), Ok(()));
    assert_eq!(game.test_properties.len(), 4);
    assert_eq!(game.add_to_admins(Origin::Root, 4), Ok(()));
    assert_eq!(game.register_user(Origin::Signed(4), 0), Ok(()));
    practise_round(&mut game, 0, 0);
    assert_eq!(game.play_game(Origin::Signed(0), DifficultyLevel::Player, 0), Ok(()));
    assert_eq!(game.submit_answer(Origin::Signed(0), 220_000, 1, 0), Ok(()));
    assert!(game.game_info.get(&0).is_none());
    assert_eq!(game.users.get(&0).unwrap().points, 155);
    assert_eq!(game.nfts.owner(0, 0).unwrap(), 0);
    assert_eq!(game.list_nft(Origin::Signed(0), 0, 0), Ok(()));
    assert_eq!(game.nfts.owner(0, 0).unwrap(), game.account_id());
    assert_eq!(game.listings.get(&0).unwrap().owner, 0);
    assert_eq!(game.delist_nft(Origin::Signed(0), 0), Ok(()));
    assert_eq!(game.nfts.transfer(0, 0, 0, 1), Err(NftError::ItemLocked));
}

#[test]
fn delist_nft_doesnt_works() {
    let mut game = new_game();
    assert_eq!(game.setup_game(Origin::Root), Ok(()));
    assert_eq!(game.test_properties.len(), 4);
    assert_eq!(game.add_to_admins(Origin::Root, 4), Ok(()));
    assert_eq!(game.register_user(Origin::Signed(4), 0), Ok(()));
    practise_round(&mut game, 0, 0);
    assert_eq!(game.play_game(Origin::Signed(0), DifficultyLevel::Player, 0), Ok(()));
    assert_eq!(game.submit_answer(Origin::Signed(0), 220_000, 1, 0), Ok(()));
    assert!(game.game_info.get(&0).is_none());
    assert_eq!(game.users.get(&0).unwrap().points, 155);
    assert_eq!(game.nfts.owner(0, 0).unwrap(), 0);
    assert_eq!(game.list_nft(Origin::Signed(0), 0, 0), Ok(()));
    assert_eq!(game.nfts.owner(0, 0).unwrap(), game.account_id());
    assert_eq!(game.listings.get(&0).unwrap().owner, 0);
    assert_eq!(game.delist_nft(Origin::Signed(1), 0), Err(Error::NoPermission));
}

#[test]
fn make_offer_works() {
    let mut game = new_game();
    assert_eq!(game.setup_game(Origin::Root), Ok(()));
    assert_eq!(game.test_properties.len(), 4);
    assert_eq!(game.add_to_admins(Origin::Root, 4), Ok(()));
    assert_eq!(game.register_user(Origin::Signed(4), 0), Ok(()));
    assert_eq!(game.register_user(Origin::Signed(4), 1), Ok(()));
    practise_round(&mut game, 0, 0);
    assert_eq!(game.play_game(Origin::Signed(0), DifficultyLevel::Player, 0), Ok(()));
    assert_eq!(game.submit_answer(Origin::Signed(0), 220_000, 1, 0), Ok(()));
    assert!(game.game_info.get(&0).is_none());
    assert_eq!(game.users.get(&0).unwrap().points, 155);
    assert_eq!(game.nfts.owner(0, 0).unwrap(), 0);
    practise_round(&mut game, 1, 2);
    assert_eq!(game.play_game(Origin::Signed(1), DifficultyLevel::Player, 0), Ok(()));
    assert_eq!(game.submit_answer(Origin::Signed(1), 220_000, 3, 0), Ok(()));
    assert_eq!(game.nfts.owner(0, 1).unwrap(), 1);
    assert_eq!(game.list_nft(Origin::Signed(0), 0, 0), Ok(()));
    assert_eq!(game.nfts.owner(0, 0).unwrap(), game.account_id());
    assert_eq!(game.listings.get(&0).unwrap().owner, 0);
    assert_eq!(game.make_offer(Origin::Signed(1), 0, 0, 1), Ok(()));
    assert_eq!(game.offers.get(&0).unwrap().owner, 1);
}

#[test]
fn make_offer_doesnt_works() {
    let mut game = new_game();
    assert_eq!(game.setup_game(Origin::Root), Ok(()));
    assert_eq!(game.test_properties.len(), 4);
    assert_eq!(game.add_to_admins(Origin::Root, 4), Ok(()));
    assert_eq!(game.register_user(Origin::Signed(4), 0), Ok(()));
    assert_eq!(game.give_points(Origin::Root, 0), Ok(()));
    practise_round(&mut game, 0, 0);
    assert_eq!(game.play_game(Origin::Signed(0), DifficultyLevel::Player, 0), Ok(()));
    assert_eq!(game.submit_answer(Origin::Signed(0), 220_000, 1, 0), Ok(()));
    assert_eq!(game.make_offer(Origin::Signed(1), 0, 0, 0), Err(Error::ListingDoesNotExist));
}

#[test]
fn withdraw_offer_works() {
    let mut game = new_game();
    assert_eq!(game.setup_game(Origin::Root), Ok(()));
    assert_eq!(game.test_properties.len(), 4);
    assert_eq!(game.add_to_admins(Origin::Root, 4), Ok(()));
    assert_eq!(game.register_user(Origin::Signed(4), 0), Ok(()));
    assert_eq!(game.register_user(Origin::Signed(4), 1), Ok(()));
    practise_round(&mut game, 0, 0);
    assert_eq!(game.play_game(Origin::Signed(0), DifficultyLevel::Player, 0), Ok(()));
    assert_eq!(game.submit_answer(Origin::Signed(0), 220_000, 1, 0), Ok(()));
    assert!(game.game_info.get(&0).is_none());
    assert_eq!(game.users.get(&0).unwrap().points, 155);
    assert_eq!(game.nfts.owner(0, 0).unwrap(), 0);
    practise_round(&mut game, 1, 2);
    assert_eq!(game.play_game(Origin::Signed(1), DifficultyLevel::Player, 0), Ok(()));
    assert_eq!(game.submit_answer(Origin::Signed(1), 220_000, 3, 0), Ok(()));
    assert_eq!(game.nfts.owner(0, 1).unwrap(), 1);
    assert_eq!(game.list_nft(Origin::Signed(0), 0, 0), Ok(()));
    assert_eq!(game.nfts.owner(0, 0).unwrap(), game.account_id());
    assert_eq!(game.listings.get(&0).unwrap().owner, 0);
    assert_eq!(game.make_offer(Origin::Signed(1), 0, 0, 1), Ok(()));
    assert_eq!(game.offers.get(&0).unwrap().owner, 1);
    assert_eq!(game.withdraw_offer(Origin::Signed(1), 0), Ok(()));
    assert!(game.offers.get(&0).is_none());
}

#[test]
fn withdraw_offer_fails() {
    let mut game = new_game();
    assert_eq!(game.setup_game(Origin::Root), Ok(()));
    assert_eq!(game.test_properties.len(), 4);
    assert_eq!(game.add_to_admins(Origin::Root, 4), Ok(()));
    assert_eq!(game.register_user(Origin::Signed(4), 0), Ok(()));
    assert_eq!(game.register_user(Origin::Signed(4), 1), Ok(()));
    practise_round(&mut game, 0, 0);
    assert_eq!(game.play_game(Origin::Signed(0), DifficultyLevel::Player, 0), Ok(()));
    assert_eq!(game.submit_answer(Origin::Signed(0), 220_000, 1, 0), Ok(()));
    assert!(game.game_info.get(&0).is_none());
    assert_eq!(game.users.get(&0).unwrap().points, 155);
    assert_eq!(game.nfts.owner(0, 0).unwrap(), 0);
    practise_round(&mut game, 1, 2);
    assert_eq!(game.play_game(Origin::Signed(1), DifficultyLevel::Player, 0), Ok(()));
    assert_eq!(game.submit_answer(Origin::Signed(1), 220_000, 3, 0), Ok(()));
    assert_eq!(game.nfts.owner(0, 1).unwrap(), 1);
    assert_eq!(game.list_nft(Origin::Signed(0), 0, 0), Ok(()));
    assert_eq!(game.nfts.owner(0, 0).unwrap(), game.account_id());
    assert_eq!(game.listings.get(&0).unwrap().owner, 0);
    assert_eq!(game.withdraw_offer(Origin::Signed(0), 0), Err(Error::OfferDoesNotExist));
    assert_eq!(game.make_offer(Origin::Signed(1), 0, 0, 1), Ok(()));
    assert_eq!(game.offers.get(&0).unwrap().owner, 1);
    assert_eq!(game.withdraw_offer(Origin::Signed(0), 0), Err(Error::NoPermission));
}

#[test]
fn handle_offer_accept_works() {
    let mut game = new_game();
    assert_eq!(game.setup_game(Origin::Root), Ok(()));
    assert_eq!(game.test_properties.len(), 4);
    assert_eq!(game.add_to_admins(Origin::Root, 4), Ok(()));
    assert_eq!(game.register_user(Origin::Signed(4), 0), Ok(()));
    assert_eq!(game.register_user(Origin::Signed(4), 1), Ok(()));
    practise_round(&mut game, 0, 0);
    assert_eq!(game.play_game(Origin::Signed(0), DifficultyLevel::Player, 0), Ok(()));
    assert_eq!(game.submit_answer(Origin::Signed(0), 220_000, 1, 0), Ok(()));
    assert_eq!(game.users.get(&0).unwrap().points, 155);
    assert!(game.game_info.get(&0).is_none());
    assert_eq!(game.nfts.owner(0, 0).unwrap(), 0);
    practise_round(&mut game, 1, 2);
    assert_eq!(game.play_game(Origin::Signed(1), DifficultyLevel::Player, 0), Ok(()));
    assert_eq!(game.submit_answer(Origin::Signed(1), 220_000, 3, 0), Ok(()));
    assert_eq!(game.play_game(Origin::Signed(0), DifficultyLevel::Player, 0), Ok(()));
    assert_eq!(game.submit_answer(Origin::Signed(0), 220_000, 4, 0), Ok(()));
    assert_eq!(game.users.get(&0).unwrap().points, 275);
    assert_eq!(game.play_game(Origin::Signed(0), DifficultyLevel::Player, 0), Ok(()));
    assert_eq!(game.submit_answer(Origin::Signed(0), 220_000, 5, 0), Ok(()));
    assert_eq!(game.users.get(&0).unwrap().nfts.xorange, 3);
    assert_eq!(game.users.get(&0).unwrap().points, 495);
    assert_eq!(game.users.get(&1).unwrap().nfts.xorange, 1);
    assert_eq!(game.nfts.owner(0, 1).unwrap(), 1);
    assert_eq!(game.list_nft(Origin::Signed(0), 0, 0), Ok(()));
    assert_eq!(game.nfts.owner(0, 0).unwrap(), game.account_id());
    assert_eq!(game.listings.get(&0).unwrap().owner, 0);
    assert_eq!(game.make_offer(Origin::Signed(1), 0, 0, 1), Ok(()));
    assert_eq!(game.offers.get(&0).unwrap().owner, 1);
    assert_eq!(game.handle_offer(Origin::Signed(0), 0, Offer::Accept), Ok(()));
    assert_eq!(game.nfts.owner(0, 0).unwrap(), 1);
    assert_eq!(game.nfts.owner(0, 1).unwrap(), 0);
    assert!(game.offers.get(&0).is_none());
    assert!(game.listings.get(&0).is_none());
    assert_eq!(game.users.get(&0).unwrap().nfts.xorange, 3);
    assert_eq!(game.users.get(&1).unwrap().nfts.xorange, 1);
    assert_eq!(game.users.get(&0).unwrap().points, 495);
    assert_eq!(game.users.get(&1).unwrap().points, 155);
    assert_eq!(game.nfts.transfer(0, 0, 1, 1), Err(NftError::ItemLocked));
    assert_eq!(game.nfts.transfer(1, 0, 0, 1), Err(NftError::ItemLocked));
}

#[test]
fn handle_offer_reject_works() {
    let mut game = new_game();
    assert_eq!(game.setup_game(Origin::Root), Ok(()));
    assert_eq!(game.test_properties.len(), 4);
    assert_eq!(game.add_to_admins(Origin::Root, 4), Ok(()));
    assert_eq!(game.register_user(Origin::Signed(4), 0), Ok(()));
    assert_eq!(game.register_user(Origin::Signed(4), 1), Ok(()));
    practise_round(&mut game, 0, 0);
    assert_eq!(game.play_game(Origin::Signed(0), DifficultyLevel::Player, 0), Ok(()));
    assert_eq!(game.submit_answer(Origin::Signed(0), 220_000, 1, 0), Ok(()));
    assert!(game.game_info.get(&0).is_none());
    assert_eq!(game.users.get(&0).unwrap().points, 155);
    assert_eq!(game.nfts.owner(0, 0).unwrap(), 0);
    practise_round(&mut game, 1, 2);
    assert_eq!(game.play_game(Origin::Signed(1), DifficultyLevel::Player, 0), Ok(()));
    assert_eq!(game.submit_answer(Origin::Signed(1), 220_000, 3, 0), Ok(()));
    assert_eq!(game.nfts.owner(0, 1).unwrap(), 1);
    assert_eq!(game.list_nft(Origin::Signed(0), 0, 0), Ok(()));
    assert_eq!(game.nfts.owner(0, 0).unwrap(), game.account_id());
    assert_eq!(game.listings.get(&0).unwrap().owner, 0);
    assert_eq!(game.make_offer(Origin::Signed(1), 0, 0, 1), Ok(()));
    assert_eq!(game.offers.get(&0).unwrap().owner, 1);
    assert_eq!(game.handle_offer(Origin::Signed(0), 0, Offer::Reject), Ok(()));
    assert_eq!(game.nfts.owner(0, 1).unwrap(), 1);
    assert!(game.offers.get(&0).is_none());
    assert!(game.listings.get(&0).is_some());
    assert_eq!(game.nfts.transfer(1, 0, 1, 1), Err(NftError::ItemLocked));
}

#[test]
fn handle_offer_doesnt_works() {
    let mut game = new_game();
    assert_eq!(game.setup_game(Origin::Root), Ok(()));
    assert_eq!(game.test_properties.len(), 4);
    assert_eq!(game.add_to_admins(Origin::Root, 4), Ok(()));
    assert_eq!(game.register_user(Origin::Signed(4), 0), Ok(()));
    assert_eq!(game.register_user(Origin::Signed(4), 1), Ok(()));
    practise_round(&mut game, 0, 0);
    assert_eq!(game.play_game(Origin::Signed(0), DifficultyLevel::Player, 0), Ok(()));
    assert_eq!(game.submit_answer(Origin::Signed(0), 220_000, 1, 0), Ok(()));
    assert!(game.game_info.get(&0).is_none());
    assert_eq!(game.users.get(&0).unwrap().points, 155);
    assert_eq!(game.nfts.owner(0, 0).unwrap(), 0);
    practise_round(&mut game, 1, 2);
    assert_eq!(game.play_game(Origin::Signed(1), DifficultyLevel::Player, 0), Ok(()));
    assert_eq!(game.submit_answer(Origin::Signed(1), 220_000, 3, 0), Ok(()));
    assert_eq!(game.nfts.owner(0, 1).unwrap(), 1);
    assert_eq!(game.list_nft(Origin::Signed(0), 0, 0), Ok(()));
    assert_eq!(game.nfts.owner(0, 0).unwrap(), game.account_id());
    assert_eq!(game.listings.get(&0).unwrap().owner, 0);
    assert_eq!(game.handle_offer(Origin::Signed(0), 0, Offer::Reject), Err(Error::OfferDoesNotExist));
}

#[test]
fn play_multiple_rounds_works() {
    let mut game = new_game();
    assert_eq!(game.setup_game(Origin::Root), Ok(()));
    assert_eq!(game.test_properties.len(), 4);
    assert_eq!(game.add_to_admins(Origin::Root, 4), Ok(()));
    assert_eq!(game.register_user(Origin::Signed(4), 0), Ok(()));
    practise_round(&mut game, 0, 0);
    for x in 1..=20 {
        assert_eq!(game.play_game(Origin::Signed(0), DifficultyLevel::Player, 0), Ok(()));
        assert_eq!(game.submit_answer(Origin::Signed(0), 217_000, x, 0), Ok(()));
    }
    assert_eq!(game.play_game(Origin::Signed(0), DifficultyLevel::Player, 0), Ok(()));
    assert!(game.game_info.get(&21).is_some());
    assert_eq!(game.users.get(&0).unwrap().points, 555);
}

#[test]
fn add_property_works() {
    let mut game = new_game();
    assert_eq!(game.setup_game(Origin::Root), Ok(()));
    let new_property = PropertyInfoData {
        id: 146480642,
        bedrooms: 2,
        bathrooms: 1,
        summary: "Spacious apartment in the heart of New York City with a balcony and garden."
            .as_bytes()
            .to_vec(),
        property_sub_type: "Apartment".as_bytes().to_vec(),
        first_visible_date: "2024-05-06T12:00:00Z".as_bytes().to_vec(),
        display_size: "1000 sq ft".as_bytes().to_vec(),
        display_address: "New York City, NY".as_bytes().to_vec(),
        property_images1: "https://example.com/image1.jpg".as_bytes().to_vec(),
    };
    assert_eq!(game.add_property(Origin::Root, new_property, 122565), Ok(()));
    assert_eq!(game.test_properties.len(), 5);
}

#[test]
fn remove_property_works() {
    let mut game = new_game();
    assert_eq!(game.setup_game(Origin::Root), Ok(()));
    assert_eq!(game.remove_property(Origin::Root, 146480642), Ok(()));
    assert_eq!(game.test_properties.len(), 3);
}

#[test]
fn request_token_works() {
    let mut game = new_game();
    assert_eq!(game.setup_game(Origin::Root), Ok(()));
    assert_eq!(game.add_to_admins(Origin::Root, 4), Ok(()));
    assert_eq!(game.register_user(Origin::Signed(4), 0), Ok(()));
    game.set_block_number(100802);
    assert_eq!(game.request_token(Origin::Signed(0)), Ok(()));
}

#[test]
fn request_token_doesnt_works() {
    let mut game = new_game();
    assert_eq!(game.setup_game(Origin::Root), Ok(()));
    assert_eq!(game.request_token(Origin::Signed(0)), Err(Error::UserNotRegistered));
    assert_eq!(game.add_to_admins(Origin::Root, 4), Ok(()));
    assert_eq!(game.register_user(Origin::Signed(4), 0), Ok(()));
    assert_eq!(game.request_token(Origin::Signed(0)), Err(Error::CantRequestToken));
}
