use twitch_types::{EmoteId, Nickname, ResubscriptionEmote, UserId, UserName};

#[test]
fn resubscription_emote_text() {
    let e = ResubscriptionEmote { begin: 0, end: 7, id: EmoteId::new("304456832") };
    assert_eq!(e.to_string(), "304456832:0-7");
    let e = ResubscriptionEmote { begin: -3, end: i64::MIN, id: EmoteId::new("x") };
    assert_eq!(e.to_string(), "x:-3--9223372036854775808");
}

#[test]
fn ids_hold_their_text() {
    let id = UserId::new("141981764");
    assert_eq!(id.as_str(), "141981764");
    assert_eq!(id.clone().into_string(), "141981764".to_string());
    let from_owned: UserId = UserId::from("141981764".to_string());
    assert_eq!(from_owned, id);
    let login: UserName = Nickname::from_string("twitchdev".to_string());
    assert_eq!(login.as_str(), "twitchdev");
}
