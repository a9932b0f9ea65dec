use metaheuristics::population::{partner_from_draw, population_member, random_partner};

#[test]
fn member_is_its_row_of_the_buffer() {
    let buffer: Vec<f64> = (0..12).map(|v| v as f64).collect();
    assert_eq!(population_member(&buffer, 4, 0), &[0.0, 1.0, 2.0, 3.0]);
    assert_eq!(population_member(&buffer, 4, 1), &[4.0, 5.0, 6.0, 7.0]);
    assert_eq!(population_member(&buffer, 4, 2), &[8.0, 9.0, 10.0, 11.0]);
    assert_eq!(population_member(&buffer, 3, 3), &[9.0, 10.0, 11.0]);
}

#[test]
fn member_of_zero_dimensions_is_empty() {
    let buffer: Vec<u8> = vec![1, 2, 3];
    assert!(population_member(&buffer, 0, 5).is_empty());
}

#[test]
fn draws_skip_the_member() {
    assert_eq!(partner_from_draw(3, 0), 0);
    assert_eq!(partner_from_draw(3, 2), 2);
    assert_eq!(partner_from_draw(3, 3), 4);
    assert_eq!(partner_from_draw(3, 8), 9);
    assert_eq!(partner_from_draw(0, 0), 1);
}

#[test]
fn draws_map_one_to_one_onto_the_other_members() {
    let n = 7usize;
    for member in 0..n {
        let mut partners: Vec<usize> = (0..n - 1).map(|d| partner_from_draw(member, d)).collect();
        partners.sort();
        let others: Vec<usize> = (0..n).filter(|q| *q != member).collect();
        assert_eq!(partners, others);
    }
}

#[test]
fn partner_of_a_pair_is_the_other_member() {
    let mut rng = rand::thread_rng();
    for _ in 0..50 {
        assert_eq!(random_partner(&mut rng, 0, 2), 1);
        assert_eq!(random_partner(&mut rng, 1, 2), 0);
    }
}

#[test]
fn partner_is_another_member_in_range() {
    let mut rng = rand::thread_rng();
    let mut seen = [false; 5];
    for _ in 0..2000 {
        let q = random_partner(&mut rng, 2, 5);
        assert!(q < 5 && q != 2);
        seen[q] = true;
    }
    assert_eq!(seen, [true, true, false, true, true]);
}
