use vstd::prelude::*;
use crate::text::same_text;

verus! {

/// A field of a user's record that a minimized view may show.
#[derive(Debug, Clone, Copy, PartialEq, Eq, Structural)]
pub enum UserField {
    Id,
    DisplayName,
    FirstName,
    LastName,
    AvatarUrl,
    Bio,
    Status,
    LastSeen,
    PrimaryRole,
}

/// The key under which a field is shown.
pub open spec fn field_key(f: UserField) -> Seq<char> {
    match f {
        UserField::Id => "id"@,
        UserField::DisplayName => "displayName"@,
        UserField::FirstName => "firstName"@,
        UserField::LastName => "lastName"@,
        UserField::AvatarUrl => "avatarUrl"@,
        UserField::Bio => "bio"@,
        UserField::Status => "status"@,
        UserField::LastSeen => "lastSeen"@,
        UserField::PrimaryRole => "primaryRole"@,
    }
}

impl UserField {
    /// The key under which the field is shown.
    pub fn key(&self) -> (r: &'static str)
        ensures
            r@ == field_key(*self),
    {
        match self {
            UserField::Id => "id",
            UserField::DisplayName => "displayName",
            UserField::FirstName => "firstName",
            UserField::LastName => "lastName",
            UserField::AvatarUrl => "avatarUrl",
            UserField::Bio => "bio",
            UserField::Status => "status",
            UserField::LastSeen => "lastSeen",
            UserField::PrimaryRole => "primaryRole",
        }
    }
}

/// The fields shown for a purpose, in order: display needs the basics,
/// messaging adds when the user was last seen, a profile view adds names,
/// bio and role; any other purpose gets the id and display name alone.
pub open spec fn minimized_fields_spec(purpose: Seq<char>) -> Seq<UserField> {
    if purpose == "display"@ {
        seq![UserField::Id, UserField::DisplayName, UserField::AvatarUrl, UserField::Status]
    } else if purpose == "messaging"@ {
        seq![UserField::Id, UserField::DisplayName, UserField::AvatarUrl, UserField::Status, UserField::LastSeen]
    } else if purpose == "profile"@ {
        seq![
            UserField::Id,
            UserField::DisplayName,
            UserField::FirstName,
            UserField::LastName,
            UserField::AvatarUrl,
            UserField::Bio,
            UserField::Status,
            UserField::LastSeen,
            UserField::PrimaryRole,
        ]
    } else {
        seq![UserField::Id, UserField::DisplayName]
    }
}

/// The fields of a user's record that are shown for `purpose`.
pub fn minimized_fields(purpose: &str) -> (r: Vec<UserField>)
    ensures
        r@ == minimized_fields_spec(purpose@),
{
    let r = if same_text(purpose, "display") {
        vec![UserField::Id, UserField::DisplayName, UserField::AvatarUrl, UserField::Status]
    } else if same_text(purpose, "messaging") {
        vec![UserField::Id, UserField::DisplayName, UserField::AvatarUrl, UserField::Status, UserField::LastSeen]
    } else if same_text(purpose, "profile") {
        vec![
            UserField::Id,
            UserField::DisplayName,
            UserField::FirstName,
            UserField::LastName,
            UserField::AvatarUrl,
            UserField::Bio,
            UserField::Status,
            UserField::LastSeen,
            UserField::PrimaryRole,
        ]
    } else {
        vec![UserField::Id, UserField::DisplayName]
    };
    assert(r@ =~= minimized_fields_spec(purpose@));
    r
}

/// Every purpose shows the id and display name, and never more than a
/// profile view does.
pub proof fn law_minimized_fields_bounded(purpose: Seq<char>)
    ensures
        minimized_fields_spec(purpose).contains(UserField::Id),
        minimized_fields_spec(purpose).contains(UserField::DisplayName),
        forall|f: UserField| #[trigger] minimized_fields_spec(purpose).contains(f)
            ==> minimized_fields_spec("profile"@).contains(f),
{
    reveal_strlit("display");
    reveal_strlit("messaging");
    reveal_strlit("profile");
    assert("profile"@ != "display"@) by {
        assert("profile"@[0] != "display"@[0]);
    }
    assert("profile"@ != "messaging"@) by {
        assert("profile"@.len() != "messaging"@.len());
    }
    let fs = minimized_fields_spec(purpose);
    assert(fs[0] == UserField::Id);
    assert(fs[1] == UserField::DisplayName);
    let all = minimized_fields_spec("profile"@);
    assert forall|f: UserField| #[trigger] fs.contains(f) implies all.contains(f) by {
        let j = choose|j: int| 0 <= j < fs.len() && fs[j] == f;
        match f {
            UserField::Id => assert(all[0] == f),
            UserField::DisplayName => assert(all[1] == f),
            UserField::FirstName => assert(all[2] == f),
            UserField::LastName => assert(all[3] == f),
            UserField::AvatarUrl => assert(all[4] == f),
            UserField::Bio => assert(all[5] == f),
            UserField::Status => assert(all[6] == f),
            UserField::LastSeen => assert(all[7] == f),
            UserField::PrimaryRole => assert(all[8] == f),
        }
    }
}


/// Messaging shows what display shows and, after it, when the user was
/// last seen; display shows the id, display name, avatar and status. No
/// purpose but a profile view shows a first or last name, bio or role; a
/// profile view shows every field; any purpose other than display,
/// messaging and profile shows the id and display name alone.
pub proof fn law_purposes_nest(purpose: Seq<char>)
    ensures
        minimized_fields_spec("display"@)
            == seq![UserField::Id, UserField::DisplayName, UserField::AvatarUrl, UserField::Status],
        minimized_fields_spec("messaging"@) == minimized_fields_spec("display"@).push(UserField::LastSeen),
        purpose != "profile"@ ==> {
            &&& !minimized_fields_spec(purpose).contains(UserField::FirstName)
            &&& !minimized_fields_spec(purpose).contains(UserField::LastName)
            &&& !minimized_fields_spec(purpose).contains(UserField::Bio)
            &&& !minimized_fields_spec(purpose).contains(UserField::PrimaryRole)
        },
        forall|f: UserField| #[trigger] minimized_fields_spec("profile"@).contains(f),
        purpose != "display"@ && purpose != "messaging"@ && purpose != "profile"@
            ==> minimized_fields_spec(purpose) == seq![UserField::Id, UserField::DisplayName],
{
    reveal_strlit("display");
    reveal_strlit("messaging");
    reveal_strlit("profile");
    assert("messaging"@ != "display"@) by {
        assert("messaging"@.len() != "display"@.len());
    }
    assert("profile"@ != "display"@) by {
        assert("profile"@[0] != "display"@[0]);
    }
    assert("profile"@ != "messaging"@) by {
        assert("profile"@.len() != "messaging"@.len());
    }
    assert(minimized_fields_spec("messaging"@) =~= minimized_fields_spec("display"@).push(UserField::LastSeen));
    let fs = minimized_fields_spec(purpose);
    if purpose != "profile"@ {
        assert(!fs.contains(UserField::FirstName));
        assert(!fs.contains(UserField::LastName));
        assert(!fs.contains(UserField::Bio));
        assert(!fs.contains(UserField::PrimaryRole));
    }
    let all = minimized_fields_spec("profile"@);
    assert forall|f: UserField| #[trigger] all.contains(f) by {
        match f {
            UserField::Id => assert(all[0] == f),
            UserField::DisplayName => assert(all[1] == f),
            UserField::FirstName => assert(all[2] == f),
            UserField::LastName => assert(all[3] == f),
            UserField::AvatarUrl => assert(all[4] == f),
            UserField::Bio => assert(all[5] == f),
            UserField::Status => assert(all[6] == f),
            UserField::LastSeen => assert(all[7] == f),
            UserField::PrimaryRole => assert(all[8] == f),
        }
    }
}

} // verus!
