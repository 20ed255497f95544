use party_finder::ffxiv::{treasure_map_name, Language};
use party_finder::listing::Listing;
use party_finder::page::sort_listings_page;
use party_finder::readable::{
    ReadableConditionFlags, ReadableDutyFinderSettingsFlags, ReadableLootRuleFlags,
    ReadableObjectiveFlags, ReadableSearchAreaFlags,
};
use party_finder::stats::{
    attach_aliases, host_content_ids, select_stats, Alias, CachedStatistics, ContentIdCount,
    HostCount, Statistics,
};
use party_finder::store::QueriedListing;
use party_finder::template::{ListingsTemplate, StatsTemplate};

fn listing(id: u32, category: u8) -> Listing {
    Listing {
        id,
        last_server_restart: 7,
        created_world: 1,
        home_world: 1,
        current_world: 1,
        seconds_remaining: 100,
        category,
        search_area: 0,
        name: Vec::new(),
        description: Vec::new(),
    }
}

fn queried(id: u32, category: u8, time_left: i64, updated_minute: i64) -> QueriedListing {
    QueriedListing {
        listing: listing(id, category),
        created_at: 0,
        updated_at: updated_minute,
        time_left,
        updated_minute,
    }
}

fn stats(hosts: Vec<HostCount>) -> Statistics {
    Statistics {
        count: 42,
        duties: Vec::new(),
        hosts,
        hours: Vec::new(),
        days: Vec::new(),
        aliases: Vec::new(),
    }
}

#[test]
fn page_order_prefers_fresh_bins_then_category_then_urgency() {
    let input = vec![
        queried(1, 5, 40, 300),
        queried(2, 5, 10, 600),
        queried(3, 9, 99, 300),
        queried(4, 5, 20, 600),
    ];
    let out = sort_listings_page(input);
    let ids: Vec<u32> = out.iter().map(|q| q.listing.id).collect();
    // Fresher bin (600) first; inside it the lower time first; then the
    // older bin with the higher category first.
    assert_eq!(ids, vec![2, 4, 3, 1]);
}

#[test]
fn page_order_is_stable_on_full_ties() {
    let input = vec![queried(1, 5, 40, 300), queried(2, 5, 40, 300), queried(3, 5, 40, 300)];
    let out = sort_listings_page(input);
    let ids: Vec<u32> = out.iter().map(|q| q.listing.id).collect();
    assert_eq!(ids, vec![1, 2, 3]);
}

#[test]
fn page_order_of_empty_is_empty() {
    assert!(sort_listings_page(Vec::new()).is_empty());
}

#[test]
fn host_ids_flatten_in_order() {
    let hosts = vec![
        HostCount {
            world: 1,
            count: 3,
            content_ids: vec![
                ContentIdCount { content_id: 11, count: 2 },
                ContentIdCount { content_id: 12, count: 1 },
            ],
        },
        HostCount { world: 2, count: 1, content_ids: vec![ContentIdCount {
            content_id: 21,
            count: 1,
        }] },
    ];
    assert_eq!(host_content_ids(&hosts), vec![11, 12, 21]);
}

#[test]
fn attach_aliases_replaces_only_aliases() {
    let s = stats(Vec::new());
    let out = attach_aliases(
        s,
        vec![Alias { content_id: 5, name: b"Someone".to_vec(), home_world: 3 }],
    );
    assert_eq!(out.count, 42);
    assert_eq!(out.aliases.len(), 1);
    assert_eq!(out.aliases[0].content_id, 5);
}

#[test]
fn select_stats_picks_the_requested_window() {
    let cached = CachedStatistics {
        all_time: stats(Vec::new()),
        seven_days: stats(vec![HostCount { world: 9, count: 1, content_ids: Vec::new() }]),
    };
    assert_eq!(select_stats(&cached, false).hosts.len(), 0);
    assert_eq!(select_stats(&cached, true).hosts.len(), 1);
}

#[test]
fn templates_carry_their_data() {
    let t = ListingsTemplate { containers: vec![queried(1, 5, 40, 300)], lang: Language::English };
    assert_eq!(t.containers.len(), 1);
    let s = StatsTemplate { stats: stats(Vec::new()), lang: Language::French };
    assert_eq!(s.stats.count, 42);
}

#[test]
fn objective_flags_decompose() {
    let r = ReadableObjectiveFlags::from_bits(1 | 4);
    assert!(r.duty_completion && !r.practice && r.loot);
}

#[test]
fn condition_flags_decompose() {
    let r = ReadableConditionFlags::from_bits(2);
    assert!(!r.duty_complete && r.duty_incomplete && !r.duty_complete_reward_unclaimed);
}

#[test]
fn duty_finder_settings_decompose() {
    let r = ReadableDutyFinderSettingsFlags::from_bits(1 | 2 | 4);
    assert!(r.undersized_party && r.minimum_item_level && r.silence_echo);
}

#[test]
fn loot_rule_flags_decompose() {
    let r = ReadableLootRuleFlags::from_bits(0);
    assert!(!r.greed_only && !r.lootmaster);
}

#[test]
fn search_area_flags_decompose() {
    let r = ReadableSearchAreaFlags::from_bits(2 | 16);
    assert!(!r.data_centre && r.private && !r.alliance_raid && !r.world && r.one_player_per_job);
}

#[test]
fn language_from_code_prefixes() {
    assert_eq!(Language::from_code(&b"ja-JP".to_vec()), Language::Japanese);
    assert_eq!(Language::from_code(&b"de".to_vec()), Language::German);
    assert_eq!(Language::from_code(&b"fr-FR,fr;q=0.9".to_vec()), Language::French);
    assert_eq!(Language::from_code(&b"en-US".to_vec()), Language::English);
    assert_eq!(Language::from_code(&b"x".to_vec()), Language::English);
}

#[test]
fn treasure_map_names_cover_the_known_levels() {
    let all_levels = treasure_map_name(0).unwrap();
    assert_eq!(all_levels.text(Language::English), "All Levels");
    assert_eq!(all_levels.text(Language::French), "Tous niveaux");
    let last = treasure_map_name(24).unwrap();
    assert_eq!(last.text(Language::English), "Gargantuaskin Treasure Map");
    assert!(treasure_map_name(25).is_none());
}

#[test]
fn store_endpoint_keeps_its_url() {
    let m = party_finder::config::Mongo::new(String::from("mongodb://localhost:27017"));
    assert_eq!(m.url, "mongodb://localhost:27017");
}
