use media_collector::anilist_convert::{
    convert_anilist_characters, convert_anilist_staff, default_images,
};
use media_collector::anilist_model::{
    CharacterConnection, CharacterEdge, CharacterImage, CharacterName, CharacterNode, MediaConnection,
    MediaEdge, MediaNode, MediaTitle, StaffConnection, StaffEdge, StaffImage, StaffName, StaffNode,
};
use media_collector::mal_model::{MalNode, MalRelatedAnime, MalRelatedManga};
use media_collector::relations::{convert_anilist_relations, convert_mal_relations};
use media_collector::task_ids::{task_id, TaskKind};
use media_collector::text::with_number;

fn staff_node(id: i32, full: Option<&str>, language: Option<&str>) -> StaffNode {
    StaffNode {
        id,
        name: full.map(|f| StaffName { first: None, middle: None, last: None, full: Some(f.to_string()), native: None }),
        language: language.map(|l| l.to_string()),
        image: Some(StaffImage { large: Some(format!("L{}", id)), medium: None }),
        site_url: Some(format!("https://anilist.co/staff/{}", id)),
    }
}

#[test]
fn task_ids_follow_kind_and_key() {
    assert_eq!(task_id(TaskKind::AniListFetchByMalId, 5114), "anilist_fetch_mal_5114");
    assert_eq!(task_id(TaskKind::AniListFetch, 0), "anilist_fetch_0");
    assert_eq!(task_id(TaskKind::Characters, 21), "fetch_characters_21");
    assert_eq!(task_id(TaskKind::MalPictures, 7), "fetch_anime_pictures_7");
    assert_eq!(task_id(TaskKind::MoreInfo, -3), "fetch_moreinfo_-3");
    assert_eq!(task_id(TaskKind::Staff, 21), task_id(TaskKind::Staff, 21));
    assert_ne!(task_id(TaskKind::Staff, 21), task_id(TaskKind::Staff, 12));
}

#[test]
fn numbers_in_decimal() {
    assert_eq!(with_number("n", 1234567890123), "n1234567890123");
    assert_eq!(with_number("", i64::MIN), "-9223372036854775808");
    assert_eq!(with_number("x", 9), "x9");
}

#[test]
fn characters_keep_edges_with_nodes() {
    let conn = Some(CharacterConnection {
        edges: Some(vec![
            CharacterEdge { id: Some(1), role: Some("MAIN".to_string()), node: None, voice_actors: vec![] },
            CharacterEdge {
                id: Some(2),
                role: None,
                node: Some(CharacterNode {
                    id: 40,
                    name: Some(CharacterName {
                        first: None,
                        middle: None,
                        last: None,
                        full: Some("Spike Spiegel".to_string()),
                        native: None,
                        alternative: vec![],
                    }),
                    image: Some(CharacterImage { large: Some("big.png".to_string()), medium: Some("mid.png".to_string()) }),
                    site_url: None,
                }),
                voice_actors: vec![staff_node(9, Some("Koichi Yamadera"), None), staff_node(10, None, Some("English"))],
            },
        ]),
    });
    let cs = convert_anilist_characters(&conn);
    assert_eq!(cs.len(), 1);
    let c = &cs[0];
    assert_eq!(c.character.mal_id, 40);
    assert_eq!(c.character.name, "Spike Spiegel");
    assert_eq!(c.character.url, "");
    assert_eq!(c.character.images.jpg.image_url, "big.png");
    assert_eq!(c.character.images.jpg.small_image_url, "mid.png");
    assert_eq!(c.character.images.jpg.large_image_url, "big.png");
    assert_eq!(c.character.images.webp.image_url, "");
    assert_eq!(c.role, "BACKGROUND");
    assert_eq!(c.voice_actors.len(), 2);
    assert_eq!(c.voice_actors[0].language, "Unknown");
    assert_eq!(c.voice_actors[0].person.name, "Koichi Yamadera");
    assert_eq!(c.voice_actors[1].language, "English");
    assert_eq!(c.voice_actors[1].person.name, "");
    assert_eq!(c.voice_actors[1].person.images.jpg.image_url, "L10");
    assert!(convert_anilist_characters(&None).is_empty());
    assert!(convert_anilist_characters(&Some(CharacterConnection { edges: None })).is_empty());
}

#[test]
fn staff_positions_from_role() {
    let conn = Some(StaffConnection {
        edges: Some(vec![
            StaffEdge { id: None, role: Some("Director".to_string()), node: Some(staff_node(1, Some("Shinichiro Watanabe"), None)) },
            StaffEdge { id: None, role: None, node: Some(staff_node(2, None, None)) },
            StaffEdge { id: None, role: Some("Music".to_string()), node: None },
        ]),
    });
    let s = convert_anilist_staff(&conn);
    assert_eq!(s.len(), 2);
    assert_eq!(s[0].positions, vec!["Director".to_string()]);
    assert_eq!(s[0].person.url, "https://anilist.co/staff/1");
    assert!(s[1].positions.is_empty());
    let d = default_images();
    assert!(d.jpg.small_image_url.is_empty());
}

fn mal_node(id: i32, title: &str) -> MalNode {
    MalNode { id, title: title.to_string(), main_picture: None }
}

#[test]
fn mal_relations_grouped_by_type() {
    let anime = vec![
        MalRelatedAnime { node: mal_node(1, "Sequel One"), relation_type: "sequel".to_string(), relation_type_formatted: "Sequel".to_string() },
        MalRelatedAnime { node: mal_node(2, "Side"), relation_type: "side_story".to_string(), relation_type_formatted: "Side story".to_string() },
        MalRelatedAnime { node: mal_node(3, "Sequel Two"), relation_type: "sequel".to_string(), relation_type_formatted: "Sequel".to_string() },
    ];
    let manga = vec![MalRelatedManga { node: mal_node(4, "Source"), relation_type: "adaptation".to_string(), relation_type_formatted: "Adaptation".to_string() }];
    let rs = convert_mal_relations(&anime, &manga);
    assert_eq!(rs.len(), 3);
    let sequel = rs.iter().find(|r| r.relation == "Sequel").unwrap();
    assert_eq!(sequel.entry.len(), 2);
    assert_eq!(sequel.entry[0].mal_id, 1);
    assert_eq!(sequel.entry[1].name, "Sequel Two");
    assert_eq!(sequel.entry[1].url, "https://myanimelist.net/anime/3");
    assert_eq!(sequel.entry[0].entry_type, "anime");
    let adaptation = rs.iter().find(|r| r.relation == "Adaptation").unwrap();
    assert_eq!(adaptation.entry[0].entry_type, "manga");
    assert_eq!(adaptation.entry[0].url, "https://myanimelist.net/manga/4");
    assert!(convert_mal_relations(&[], &[]).is_empty());
}

#[test]
fn anilist_relations_grouped_by_type() {
    let node = |id: i32, romaji: Option<&str>, english: Option<&str>, kind: Option<&str>| MediaNode {
        id,
        id_mal: None,
        title: Some(MediaTitle { romaji: romaji.map(|s| s.to_string()), english: english.map(|s| s.to_string()), native: None, user_preferred: None }),
        media_type: kind.map(|s| s.to_string()),
        format: None,
        cover_image: None,
    };
    let conn = Some(MediaConnection {
        edges: Some(vec![
            MediaEdge { id: None, relation_type: Some("PREQUEL".to_string()), node: Some(node(10, Some("Mae"), None, Some("MANGA"))) },
            MediaEdge { id: None, relation_type: None, node: Some(node(11, Some("Skip"), None, None)) },
            MediaEdge { id: None, relation_type: Some("PREQUEL".to_string()), node: Some(node(12, None, Some("Before"), None)) },
            MediaEdge { id: None, relation_type: Some("SEQUEL".to_string()), node: Some(node(13, None, None, None)) },
        ]),
    });
    let rs = convert_anilist_relations(&conn);
    assert_eq!(rs.len(), 2);
    let pre = rs.iter().find(|r| r.relation == "PREQUEL").unwrap();
    assert_eq!(pre.entry.len(), 2);
    assert_eq!(pre.entry[0].name, "Mae");
    assert_eq!(pre.entry[0].entry_type, "manga");
    assert_eq!(pre.entry[1].name, "Before");
    assert_eq!(pre.entry[1].entry_type, "anime");
    assert_eq!(pre.entry[1].url, "https://anilist.co/anime/12");
    let seq = rs.iter().find(|r| r.relation == "SEQUEL").unwrap();
    assert_eq!(seq.entry[0].name, "Unknown 13");
    assert!(convert_anilist_relations(&None).is_empty());
}
