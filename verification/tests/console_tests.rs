use wumpus::actor::{Actor, ActorType};
use wumpus::console_game::{actor_to_string, dangers_nearby_to_string};

#[test]
fn actor_names() {
    assert_eq!(actor_to_string(&Actor { actor_type: ActorType::You, room: 300 }), "You");
    assert_eq!(actor_to_string(&Actor { actor_type: ActorType::Wumpus, room: 1 }), "Wumpus");
    assert_eq!(actor_to_string(&Actor { actor_type: ActorType::Pit, room: 1 }), "Pit");
    assert_eq!(actor_to_string(&Actor { actor_type: ActorType::Bat, room: 1 }), "Bat");
}

#[test]
fn console_warnings_skip_you() {
    let actors = vec![
        Actor { actor_type: ActorType::Bat, room: 2 },
        Actor { actor_type: ActorType::You, room: 3 },
        Actor { actor_type: ActorType::Wumpus, room: 4 },
        Actor { actor_type: ActorType::Pit, room: 5 },
    ];
    let refs: Vec<&Actor> = actors.iter().collect();
    assert_eq!(dangers_nearby_to_string(refs), vec!["Bats nearby", "I smell a Wumpus!!", "I feel a draft"]);
    assert!(dangers_nearby_to_string(Vec::new()).is_empty());
}
