use std::time::Instant;

use rand_distr::Distribution;
use rand_xoshiro::rand_core::SeedableRng;
use rand_xoshiro::Xoshiro256PlusPlus;

use faasrail_loadgen::source::iat::IatError;
use faasrail_loadgen::source::{Equidistant, IatGenerator, Poisson, Uniform};

/// Draw one minute's raw exponential samples at `rpm` events per minute, as
/// the application does for the Poisson arrival process.
fn exp_raw_samples(rpm: u32, rng: &mut Xoshiro256PlusPlus) -> Vec<u64> {
    let exp = rand_distr::Exp::new(rpm as f64 / 60e6).expect("invalid rate");
    let mut raw = Vec::new();
    let mut sum = 0.0f64;
    while sum < 60e6 {
        let x: f64 = exp.sample(rng);
        sum += x;
        raw.push(x as u64);
    }
    raw
}

#[test]
fn poisson0() {
    let rng = Xoshiro256PlusPlus::from_entropy();

    let p = Poisson;
    for lambda in &[3u32, 25, 50, 100, 200] {
        println!("lambda = {lambda}");
        let mut draw_rng = rng.clone();
        let raw = exp_raw_samples(*lambda, &mut draw_rng);
        let t_start = Instant::now();
        let iats = p
            .gen(*lambda, &mut rng.clone(), &raw)
            .expect("failed to generate IATs");
        let dur = t_start.elapsed();
        println!("\t- Generated {} IATs in {dur:?}", iats.len());
        println!("\t- Raw (us) IATs: {iats:?}");
        let total: u128 = iats.iter().map(|&iat| iat as u128).sum();
        println!("\t- Sum = {:.3}s", total as f64 / 1e6);
        assert!(total < 60_000_000);
    }
}

#[test]
fn uniform0() {
    let rng = Xoshiro256PlusPlus::from_entropy();

    let u = Uniform;
    for rpm in &[3u32, 25, 50, 100, 200] {
        println!("RPM = {rpm}");
        let t_start = Instant::now();
        let iats = u
            .gen(*rpm, &mut rng.clone(), &[])
            .expect("failed to generate IATs");
        let dur = t_start.elapsed();
        println!("\t- Generated {} IATs in {dur:?}", iats.len());
        println!("\t- Raw (us) IATs: {iats:?}");
        let total: u128 = iats.iter().map(|&iat| iat as u128).sum();
        println!("\t- Sum = {:.3}s", total as f64 / 1e6);
        assert_eq!(iats.len(), *rpm as usize);
        assert!(total <= 60_000_000);
        assert!(total == 0 || total + *rpm as u128 >= 60_000_000);
    }
}

#[test]
fn equidistant0() {
    let rng = Xoshiro256PlusPlus::from_entropy();

    let e = Equidistant;
    for rpm in &[3u32, 25, 50, 100, 200] {
        println!("RPM = {rpm}");
        let t_start = Instant::now();
        let iats = e
            .gen(*rpm, &mut rng.clone(), &[])
            .expect("failed to generate IATs");
        let dur = t_start.elapsed();
        println!("\t- Generated {} IATs in {dur:?}", iats.len());
        println!("\t- Raw (us) IATs: {iats:?}");
        let total: u128 = iats.iter().map(|&iat| iat as u128).sum();
        println!("\t- Sum = {:.3}s", total as f64 / 1e6);
        assert_eq!(iats.len(), *rpm as usize);
        for &iat in &iats {
            assert_eq!(iat, 60_000_000 / *rpm as u64);
        }
        assert!(total <= 60_000_000);
    }
}

#[test]
fn equidistant_exact_values() {
    let mut rng = Xoshiro256PlusPlus::seed_from_u64(1);
    let iats = Equidistant.gen(6, &mut rng, &[]).unwrap();
    assert_eq!(iats, vec![10_000_000u64; 6]);
    let iats = Equidistant.gen(7, &mut rng, &[]).unwrap();
    assert_eq!(iats, vec![8_571_428u64; 7]);
    let iats = Equidistant.gen(0, &mut rng, &[]).unwrap();
    assert!(iats.is_empty());
}

#[test]
fn poisson_rejects_zero_rate() {
    let mut rng = Xoshiro256PlusPlus::seed_from_u64(2);
    let r = Poisson.gen(0, &mut rng, &[]);
    assert!(matches!(r, Err(IatError::InvalidRate)));
}

#[test]
fn poisson_budget_drops_crossing_sample() {
    let mut rng = Xoshiro256PlusPlus::seed_from_u64(3);
    // Three samples fit, the fourth would reach the minute and ends it.
    let raw = [10_000_000u64, 20_000_000, 29_999_999, 1, 5];
    let iats = Poisson.gen(60, &mut rng, &raw).unwrap();
    assert_eq!(iats, vec![10_000_000u64, 20_000_000, 29_999_999]);
}

#[test]
fn uniform_zero_rpm_is_empty() {
    let mut rng = Xoshiro256PlusPlus::seed_from_u64(4);
    let iats = Uniform.gen(0, &mut rng, &[]).unwrap();
    assert!(iats.is_empty());
}
