use yui::config::{pick_config, ConfigTraits};

fn c(srgb_capable: bool, num_samples: u8) -> ConfigTraits {
    ConfigTraits { srgb_capable, num_samples }
}

fn by_iterator(configs: &[ConfigTraits]) -> Option<usize> {
    configs
        .iter()
        .enumerate()
        .filter(|(_, c)| c.srgb_capable)
        .max_by_key(|(_, c)| c.num_samples)
        .map(|(at, _)| at)
}

#[test]
fn no_configuration_gives_none() {
    assert_eq!(pick_config(&Vec::new()), None);
}

#[test]
fn configurations_without_srgb_are_passed_over() {
    assert_eq!(pick_config(&vec![c(false, 16), c(false, 0)]), None);
    assert_eq!(pick_config(&vec![c(false, 16), c(true, 0), c(false, 8)]), Some(1));
}

#[test]
fn most_samples_win() {
    assert_eq!(pick_config(&vec![c(true, 0), c(true, 4), c(true, 2)]), Some(1));
    assert_eq!(pick_config(&vec![c(true, 8), c(true, 4), c(false, 16)]), Some(0));
    assert_eq!(pick_config(&vec![c(true, 0)]), Some(0));
    assert_eq!(pick_config(&vec![c(true, 255), c(true, 254)]), Some(0));
}

#[test]
fn of_equals_the_last_wins() {
    assert_eq!(pick_config(&vec![c(true, 4), c(true, 4), c(true, 2), c(true, 4), c(false, 4)]), Some(3));
    assert_eq!(pick_config(&vec![c(true, 0), c(true, 0)]), Some(1));
}

#[test]
fn choice_agrees_with_the_iterator() {
    let mut seed: u32 = 12345;
    for _ in 0..500 {
        let mut configs = Vec::new();
        seed = seed.wrapping_mul(1664525).wrapping_add(1013904223);
        let len = (seed >> 24) % 7;
        for _ in 0..len {
            seed = seed.wrapping_mul(1664525).wrapping_add(1013904223);
            configs.push(c((seed >> 16) & 1 == 1, ((seed >> 20) % 4) as u8));
        }
        assert_eq!(pick_config(&configs), by_iterator(&configs), "{configs:?}");
    }
}
