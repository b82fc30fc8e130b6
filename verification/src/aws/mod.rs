pub mod policy;
pub mod iam;
pub mod dynamodb;
pub mod record;
pub mod ec2;
pub mod s3;
pub mod rds;
pub mod lambda;
pub mod elb;
pub mod sns;
pub mod cloudwatch;
pub mod progress;
pub mod targets;
