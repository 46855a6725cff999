use music_bot::commands::join::Join;
use music_bot::commands::leave::{Leave, LeaveStep};
use music_bot::commands::skip::Skip;
use music_bot::commands::join::JoinPlan;
use music_bot::weather::{check_status, forecast_url, CouldNotFindLocation, Location};

#[test]
fn skip_checks() {
    assert_eq!(Skip::check(true, true), Ok(()));
    assert_eq!(Skip::check(false, true), Err("No song is playing to skip".to_string()));
    assert_eq!(Skip::check(false, false), Err("No song is playing to skip".to_string()));
    assert_eq!(Skip::check(true, false), Err("No metadata found".to_string()));
}

#[test]
fn skip_replies() {
    assert_eq!(Skip::skipped_reply(&Some("Song".to_string())), "Skipped **Song**\n");
    assert_eq!(Skip::skipped_reply(&None), "Skipped **song**\n");
    assert_eq!(Skip::skip_outcome_reply(&Some("Song".to_string()), true), "Skipped **Song**");
    assert_eq!(Skip::skip_outcome_reply(&None, true), "Skipped ****");
    assert_eq!(Skip::skip_outcome_reply(&None, false), "There are no songs to skip");
    assert_eq!(Skip::no_queue_reply(), "Queue is currently empty");
}

#[test]
fn join_plans() {
    assert_eq!(Join::plan(true, Some(1), Some(2)), Ok(JoinPlan::Connect(1)));
    assert_eq!(Join::plan(true, None, Some(2)), Ok(JoinPlan::AlreadyJoined));
    assert_eq!(Join::plan(true, None, None), Ok(JoinPlan::AlreadyJoined));
    assert_eq!(Join::plan(false, Some(1), Some(2)), Ok(JoinPlan::Connect(1)));
    assert_eq!(Join::plan(false, None, Some(2)), Ok(JoinPlan::Connect(2)));
    assert_eq!(Join::plan(false, None, None), Err("Not in a voice channel".to_string()));
    assert_eq!(Join::failure_reply("timeout"), "Error joining the channel: timeout");
    assert_eq!(Join::caller_target(Some(5)), Ok(5));
    assert_eq!(Join::caller_target(None), Err("Not in a voice channel".to_string()));
    assert_eq!(Join::joining_reply(), "Joining");
}

#[test]
fn leave_replies() {
    assert_eq!(Leave::replies(&None), vec!["Left voice channel".to_string()]);
    assert_eq!(
        Leave::replies(&Some("NoCall".to_string())),
        vec!["Failed: NoCall".to_string(), "Left voice channel".to_string()]
    );
    assert_eq!(Leave::not_in_channel_reply(), "Not in a voice channel");
    assert_eq!(Leave::first_step(true), LeaveStep::Remove);
    assert_eq!(Leave::first_step(false), LeaveStep::Reply("Not in a voice channel".to_string()));
}

#[test]
fn weather_request_and_failure() {
    assert_eq!(
        forecast_url("London", "KEY"),
        "https://api.weatherapi.com/v1/current.json?key=KEY&q=London"
    );
    assert!(check_status(true, "Paris").is_ok());
    let err = check_status(false, "Atlantis").unwrap_err();
    assert_eq!(err.message(), "Could not find location 'Atlantis'");
    assert_eq!(CouldNotFindLocation::new("X").message(), "Could not find location 'X'");
    let l = Location { name: "Paris".to_string(), region: "Ile-de-France".to_string() };
    assert_eq!(l.name, "Paris");
}
