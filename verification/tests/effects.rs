use node_reactor::components::NetworkEvent;
use node_reactor::effect::requests::NetworkRequest;
use node_reactor::effect::{Effect, EffectBuilder, Multiple};
use node_reactor::reactor::{wrap_effect, wrap_effects};

fn yields_of<T>(effects: Multiple<Effect<T>>) -> Vec<Vec<T>> {
    effects.into_iter().map(|effect| effect.resolve()).collect()
}

#[test]
fn effect_resolves_to_what_it_was_given() {
    assert_eq!(Effect::new(vec![3u8, 1, 2]).resolve(), vec![3, 1, 2]);
    assert_eq!(Effect::<u8>::new(vec![]).resolve(), Vec::<u8>::new());
}

#[test]
fn wrap_effect_maps_each_yield_in_order() {
    let wrapped = wrap_effect(&|n: u8| format!("#{}", n), Effect::new(vec![7, 8, 9]));
    assert_eq!(wrapped.resolve(), vec!["#7", "#8", "#9"]);
}

#[test]
fn wrap_effect_of_an_empty_effect_is_empty() {
    let wrapped = wrap_effect(&|n: u8| n as u32 + 1, Effect::new(vec![]));
    assert_eq!(wrapped.resolve(), Vec::<u32>::new());
}

#[test]
fn wrap_effects_keeps_count_and_order() {
    let effects = vec![
        Effect::new(vec![1u32, 2]),
        Effect::new(vec![]),
        Effect::new(vec![3]),
        Effect::new(vec![4, 5, 6]),
    ];
    let wrapped = wrap_effects(|n: u32| (n, n * 10), effects);
    assert_eq!(wrapped.len(), 4);
    assert_eq!(
        yields_of(wrapped),
        vec![
            vec![(1, 10), (2, 20)],
            vec![],
            vec![(3, 30)],
            vec![(4, 40), (5, 50), (6, 60)],
        ]
    );
}

#[test]
fn wrap_effects_of_nothing_is_nothing() {
    let wrapped = wrap_effects(|n: u32| n + 1, Vec::new());
    assert!(wrapped.is_empty());
}

#[test]
fn wrap_effects_yields_the_constructor_of_each_value() {
    for count in 0..5usize {
        for width in 0..4usize {
            let effects: Vec<Effect<usize>> = (0..count)
                .map(|i| Effect::new((0..width).map(|j| i * 10 + j).collect()))
                .collect();
            let expected: Vec<Vec<Option<usize>>> = (0..count)
                .map(|i| (0..width).map(|j| Some(i * 10 + j)).collect())
                .collect();
            let wrapped = wrap_effects(Some, effects);
            assert_eq!(wrapped.len(), count);
            assert_eq!(yields_of(wrapped), expected);
        }
    }
}

#[test]
fn wrapping_twice_applies_both_constructors() {
    let once = wrap_effects(|n: u8| n as u16 * 2, vec![Effect::new(vec![1, 2])]);
    let twice = wrap_effects(|n: u16| n as u32 + 1, once);
    assert_eq!(yields_of(twice), vec![vec![3, 5]]);
}

#[test]
fn effect_builder_keeps_its_queue() {
    let builder = EffectBuilder::new(17u32);
    assert_eq!(builder.event_queue(), 17);
    let copy = builder;
    assert_eq!(copy.event_queue(), builder.event_queue());
}

#[test]
fn map_payload_keeps_the_peer_of_a_send() {
    let request = NetworkRequest::SendMessage { dest: 9u8, payload: 4u32 };
    assert_eq!(
        request.map_payload(|n| n.to_string()),
        NetworkRequest::SendMessage { dest: 9u8, payload: "4".to_string() }
    );
}

#[test]
fn map_payload_keeps_a_broadcast_a_broadcast() {
    let request: NetworkRequest<u8, u32> = NetworkRequest::Broadcast { payload: 4 };
    assert_eq!(
        request.map_payload(|n| n + 1),
        NetworkRequest::Broadcast { payload: 5 }
    );
}

#[test]
fn network_event_from_a_request_is_that_request() {
    let request = NetworkRequest::SendMessage { dest: 1u8, payload: "hi" };
    let event: NetworkEvent<u8, &str, ()> = NetworkEvent::from(request.clone());
    assert_eq!(event, NetworkEvent::Request(request));
}
