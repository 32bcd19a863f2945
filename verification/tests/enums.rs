use lemmy_api::enums::{
    CommentSortType, ListingType, ModlogActionType, PostFeatureType, RegistrationMode, SearchType, SortType, SubscribedType,
};
use lemmy_api::json::JsonValue;
use lemmy_api::payload::Payload;

#[test]
fn comment_sort_type_round_trips_every_variant() {
    let all = [
        (CommentSortType::Hot, "Hot"),
        (CommentSortType::Top, "Top"),
        (CommentSortType::New, "New"),
        (CommentSortType::Old, "Old"),
    ];
    for (variant, wire) in all {
        assert_eq!(variant.to_str(), wire);
        assert_eq!(CommentSortType::from_str(wire), Some(variant.clone()));
        assert_eq!(CommentSortType::from_str(variant.to_str()), Some(variant));
    }
}

#[test]
fn comment_sort_type_rejects_what_is_no_wire_string() {
    assert_eq!(CommentSortType::from_str("not-a-real-value"), None);
    assert_eq!(CommentSortType::from_str(""), None);
    assert_eq!(CommentSortType::from_str("hot"), None);
    assert_eq!(CommentSortType::from_str("Hot "), None);
    assert_eq!(CommentSortType::from_str(" Old"), None);
}

#[test]
fn comment_sort_type_wire_strings_are_distinct() {
    let wires = [
        CommentSortType::Hot.to_str(),
        CommentSortType::Top.to_str(),
        CommentSortType::New.to_str(),
        CommentSortType::Old.to_str(),
    ];
    for i in 0..wires.len() {
        for j in 0..wires.len() {
            assert_eq!(wires[i] == wires[j], i == j);
        }
    }
}

#[test]
fn comment_sort_type_default_is_hot() {
    assert_eq!(CommentSortType::default(), CommentSortType::Hot);
}

#[test]
fn listing_type_round_trips_every_variant() {
    let all = [
        (ListingType::All, "All"),
        (ListingType::Local, "Local"),
        (ListingType::Subscribed, "Subscribed"),
    ];
    for (variant, wire) in all {
        assert_eq!(variant.to_str(), wire);
        assert_eq!(ListingType::from_str(wire), Some(variant.clone()));
        assert_eq!(ListingType::from_str(variant.to_str()), Some(variant));
    }
}

#[test]
fn listing_type_rejects_what_is_no_wire_string() {
    assert_eq!(ListingType::from_str("not-a-real-value"), None);
    assert_eq!(ListingType::from_str(""), None);
    assert_eq!(ListingType::from_str("all"), None);
    assert_eq!(ListingType::from_str("All "), None);
    assert_eq!(ListingType::from_str(" Subscribed"), None);
}

#[test]
fn listing_type_wire_strings_are_distinct() {
    let wires = [
        ListingType::All.to_str(),
        ListingType::Local.to_str(),
        ListingType::Subscribed.to_str(),
    ];
    for i in 0..wires.len() {
        for j in 0..wires.len() {
            assert_eq!(wires[i] == wires[j], i == j);
        }
    }
}

#[test]
fn listing_type_default_is_subscribed() {
    assert_eq!(ListingType::default(), ListingType::Subscribed);
}

#[test]
fn modlog_action_type_round_trips_every_variant() {
    let all = [
        (ModlogActionType::All, "All"),
        (ModlogActionType::ModRemovePost, "ModRemovePost"),
        (ModlogActionType::ModLockPost, "ModLockPost"),
        (ModlogActionType::ModFeaturePost, "ModFeaturePost"),
        (ModlogActionType::ModRemoveComment, "ModRemoveComment"),
        (ModlogActionType::ModRemoveCommunity, "ModRemoveCommunity"),
        (ModlogActionType::ModBanFromCommunity, "ModBanFromCommunity"),
        (ModlogActionType::ModAddCommunity, "ModAddCommunity"),
        (ModlogActionType::ModTransferCommunity, "ModTransferCommunity"),
        (ModlogActionType::ModAdd, "ModAdd"),
        (ModlogActionType::ModBan, "ModBan"),
        (ModlogActionType::ModHideCommunity, "ModHideCommunity"),
        (ModlogActionType::AdminPurgePerson, "AdminPurgePerson"),
        (ModlogActionType::AdminPurgeCommunity, "AdminPurgeCommunity"),
        (ModlogActionType::AdminPurgePost, "AdminPurgePost"),
        (ModlogActionType::AdminPurgeComment, "AdminPurgeComment"),
    ];
    for (variant, wire) in all {
        assert_eq!(variant.to_str(), wire);
        assert_eq!(ModlogActionType::from_str(wire), Some(variant.clone()));
        assert_eq!(ModlogActionType::from_str(variant.to_str()), Some(variant));
    }
}

#[test]
fn modlog_action_type_rejects_what_is_no_wire_string() {
    assert_eq!(ModlogActionType::from_str("not-a-real-value"), None);
    assert_eq!(ModlogActionType::from_str(""), None);
    assert_eq!(ModlogActionType::from_str("all"), None);
    assert_eq!(ModlogActionType::from_str("All "), None);
    assert_eq!(ModlogActionType::from_str(" AdminPurgeComment"), None);
}

#[test]
fn modlog_action_type_wire_strings_are_distinct() {
    let wires = [
        ModlogActionType::All.to_str(),
        ModlogActionType::ModRemovePost.to_str(),
        ModlogActionType::ModLockPost.to_str(),
        ModlogActionType::ModFeaturePost.to_str(),
        ModlogActionType::ModRemoveComment.to_str(),
        ModlogActionType::ModRemoveCommunity.to_str(),
        ModlogActionType::ModBanFromCommunity.to_str(),
        ModlogActionType::ModAddCommunity.to_str(),
        ModlogActionType::ModTransferCommunity.to_str(),
        ModlogActionType::ModAdd.to_str(),
        ModlogActionType::ModBan.to_str(),
        ModlogActionType::ModHideCommunity.to_str(),
        ModlogActionType::AdminPurgePerson.to_str(),
        ModlogActionType::AdminPurgeCommunity.to_str(),
        ModlogActionType::AdminPurgePost.to_str(),
        ModlogActionType::AdminPurgeComment.to_str(),
    ];
    for i in 0..wires.len() {
        for j in 0..wires.len() {
            assert_eq!(wires[i] == wires[j], i == j);
        }
    }
}

#[test]
fn modlog_action_type_default_is_all() {
    assert_eq!(ModlogActionType::default(), ModlogActionType::All);
}

#[test]
fn post_feature_type_round_trips_every_variant() {
    let all = [
        (PostFeatureType::Local, "Local"),
        (PostFeatureType::Community, "Community"),
    ];
    for (variant, wire) in all {
        assert_eq!(variant.to_str(), wire);
        assert_eq!(PostFeatureType::from_str(wire), Some(variant.clone()));
        assert_eq!(PostFeatureType::from_str(variant.to_str()), Some(variant));
    }
}

#[test]
fn post_feature_type_rejects_what_is_no_wire_string() {
    assert_eq!(PostFeatureType::from_str("not-a-real-value"), None);
    assert_eq!(PostFeatureType::from_str(""), None);
    assert_eq!(PostFeatureType::from_str("local"), None);
    assert_eq!(PostFeatureType::from_str("Local "), None);
    assert_eq!(PostFeatureType::from_str(" Community"), None);
}

#[test]
fn post_feature_type_wire_strings_are_distinct() {
    let wires = [
        PostFeatureType::Local.to_str(),
        PostFeatureType::Community.to_str(),
    ];
    for i in 0..wires.len() {
        for j in 0..wires.len() {
            assert_eq!(wires[i] == wires[j], i == j);
        }
    }
}

#[test]
fn post_feature_type_default_is_community() {
    assert_eq!(PostFeatureType::default(), PostFeatureType::Community);
}

#[test]
fn registration_mode_round_trips_every_variant() {
    let all = [
        (RegistrationMode::Closed, "Closed"),
        (RegistrationMode::RequireApplication, "RequireApplication"),
        (RegistrationMode::Open, "Open"),
    ];
    for (variant, wire) in all {
        assert_eq!(variant.to_str(), wire);
        assert_eq!(RegistrationMode::from_str(wire), Some(variant.clone()));
        assert_eq!(RegistrationMode::from_str(variant.to_str()), Some(variant));
    }
}

#[test]
fn registration_mode_rejects_what_is_no_wire_string() {
    assert_eq!(RegistrationMode::from_str("not-a-real-value"), None);
    assert_eq!(RegistrationMode::from_str(""), None);
    assert_eq!(RegistrationMode::from_str("closed"), None);
    assert_eq!(RegistrationMode::from_str("Closed "), None);
    assert_eq!(RegistrationMode::from_str(" Open"), None);
}

#[test]
fn registration_mode_wire_strings_are_distinct() {
    let wires = [
        RegistrationMode::Closed.to_str(),
        RegistrationMode::RequireApplication.to_str(),
        RegistrationMode::Open.to_str(),
    ];
    for i in 0..wires.len() {
        for j in 0..wires.len() {
            assert_eq!(wires[i] == wires[j], i == j);
        }
    }
}

#[test]
fn registration_mode_default_is_require_application() {
    assert_eq!(RegistrationMode::default(), RegistrationMode::RequireApplication);
}

#[test]
fn search_type_round_trips_every_variant() {
    let all = [
        (SearchType::All, "All"),
        (SearchType::Comments, "Comments"),
        (SearchType::Posts, "Posts"),
        (SearchType::Communities, "Communities"),
        (SearchType::Users, "Users"),
        (SearchType::Url, "Url"),
    ];
    for (variant, wire) in all {
        assert_eq!(variant.to_str(), wire);
        assert_eq!(SearchType::from_str(wire), Some(variant.clone()));
        assert_eq!(SearchType::from_str(variant.to_str()), Some(variant));
    }
}

#[test]
fn search_type_rejects_what_is_no_wire_string() {
    assert_eq!(SearchType::from_str("not-a-real-value"), None);
    assert_eq!(SearchType::from_str(""), None);
    assert_eq!(SearchType::from_str("all"), None);
    assert_eq!(SearchType::from_str("All "), None);
    assert_eq!(SearchType::from_str(" Url"), None);
}

#[test]
fn search_type_wire_strings_are_distinct() {
    let wires = [
        SearchType::All.to_str(),
        SearchType::Comments.to_str(),
        SearchType::Posts.to_str(),
        SearchType::Communities.to_str(),
        SearchType::Users.to_str(),
        SearchType::Url.to_str(),
    ];
    for i in 0..wires.len() {
        for j in 0..wires.len() {
            assert_eq!(wires[i] == wires[j], i == j);
        }
    }
}

#[test]
fn search_type_default_is_all() {
    assert_eq!(SearchType::default(), SearchType::All);
}

#[test]
fn sort_type_round_trips_every_variant() {
    let all = [
        (SortType::Active, "Active"),
        (SortType::Hot, "Hot"),
        (SortType::New, "New"),
        (SortType::Old, "Old"),
        (SortType::TopDay, "TopDay"),
        (SortType::TopWeek, "TopWeek"),
        (SortType::TopMonth, "TopMonth"),
        (SortType::TopYear, "TopYear"),
        (SortType::TopAll, "TopAll"),
        (SortType::MostComments, "MostComments"),
        (SortType::NewComments, "NewComments"),
        (SortType::TopHour, "TopHour"),
        (SortType::TopSixHour, "TopSixHour"),
        (SortType::TopTwelveHour, "TopTwelveHour"),
        (SortType::TopThreeMonths, "TopThreeMonths"),
        (SortType::TopSixMonths, "TopSixMonths"),
        (SortType::TopNineMonths, "TopNineMonths"),
    ];
    for (variant, wire) in all {
        assert_eq!(variant.to_str(), wire);
        assert_eq!(SortType::from_str(wire), Some(variant.clone()));
        assert_eq!(SortType::from_str(variant.to_str()), Some(variant));
    }
}

#[test]
fn sort_type_rejects_what_is_no_wire_string() {
    assert_eq!(SortType::from_str("not-a-real-value"), None);
    assert_eq!(SortType::from_str(""), None);
    assert_eq!(SortType::from_str("active"), None);
    assert_eq!(SortType::from_str("Active "), None);
    assert_eq!(SortType::from_str(" TopNineMonths"), None);
}

#[test]
fn sort_type_wire_strings_are_distinct() {
    let wires = [
        SortType::Active.to_str(),
        SortType::Hot.to_str(),
        SortType::New.to_str(),
        SortType::Old.to_str(),
        SortType::TopDay.to_str(),
        SortType::TopWeek.to_str(),
        SortType::TopMonth.to_str(),
        SortType::TopYear.to_str(),
        SortType::TopAll.to_str(),
        SortType::MostComments.to_str(),
        SortType::NewComments.to_str(),
        SortType::TopHour.to_str(),
        SortType::TopSixHour.to_str(),
        SortType::TopTwelveHour.to_str(),
        SortType::TopThreeMonths.to_str(),
        SortType::TopSixMonths.to_str(),
        SortType::TopNineMonths.to_str(),
    ];
    for i in 0..wires.len() {
        for j in 0..wires.len() {
            assert_eq!(wires[i] == wires[j], i == j);
        }
    }
}

#[test]
fn sort_type_default_is_active() {
    assert_eq!(SortType::default(), SortType::Active);
}

#[test]
fn subscribed_type_round_trips_every_variant() {
    let all = [
        (SubscribedType::Subscribed, "Subscribed"),
        (SubscribedType::NotSubscribed, "NotSubscribed"),
        (SubscribedType::Pending, "Pending"),
    ];
    for (variant, wire) in all {
        assert_eq!(variant.to_str(), wire);
        assert_eq!(SubscribedType::from_str(wire), Some(variant.clone()));
        assert_eq!(SubscribedType::from_str(variant.to_str()), Some(variant));
    }
}

#[test]
fn subscribed_type_rejects_what_is_no_wire_string() {
    assert_eq!(SubscribedType::from_str("not-a-real-value"), None);
    assert_eq!(SubscribedType::from_str(""), None);
    assert_eq!(SubscribedType::from_str("subscribed"), None);
    assert_eq!(SubscribedType::from_str("Subscribed "), None);
    assert_eq!(SubscribedType::from_str(" Pending"), None);
}

#[test]
fn subscribed_type_wire_strings_are_distinct() {
    let wires = [
        SubscribedType::Subscribed.to_str(),
        SubscribedType::NotSubscribed.to_str(),
        SubscribedType::Pending.to_str(),
    ];
    for i in 0..wires.len() {
        for j in 0..wires.len() {
            assert_eq!(wires[i] == wires[j], i == j);
        }
    }
}

#[test]
fn subscribed_type_default_is_not_subscribed() {
    assert_eq!(SubscribedType::default(), SubscribedType::NotSubscribed);
}

#[test]
fn sort_type_constants_are_the_wire_strings() {
    assert_eq!(SortType::TOP_SIX_HOUR, "TopSixHour");
    assert_eq!(SortType::MOST_COMMENTS, "MostComments");
    assert_eq!(ModlogActionType::MOD_BAN_FROM_COMMUNITY, "ModBanFromCommunity");
    assert_eq!(RegistrationMode::REQUIRE_APPLICATION, "RequireApplication");
    assert_eq!(SubscribedType::NOT_SUBSCRIBED, "NotSubscribed");
}

#[test]
fn enumeration_is_written_as_a_json_string() {
    assert_eq!(SortType::TopDay.to_json(), JsonValue::Str("TopDay".to_string()));
    assert_eq!(ListingType::Local.to_json(), JsonValue::Str("Local".to_string()));
}

#[test]
fn enumeration_is_read_from_a_json_string_only() {
    assert_eq!(SortType::from_json(&JsonValue::Str("Hot".to_string())), Some(SortType::Hot));
    assert_eq!(SortType::from_json(&JsonValue::Str("Hottest".to_string())), None);
    assert_eq!(SortType::from_json(&JsonValue::Int(1)), None);
    assert_eq!(SortType::from_json(&JsonValue::Null), None);
    assert_eq!(
        SubscribedType::from_json(&JsonValue::Str("Pending".to_string())),
        Some(SubscribedType::Pending)
    );
}
